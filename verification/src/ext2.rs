use vstd::prelude::*;
use crate::lebytes::{le16, le32, read_le16, read_le32};
use crate::rodev::RODev;

verus! {

/// A block group descriptor: the block bitmap, inode bitmap and inode
/// table locations.
#[derive(Copy, Clone, Debug)]
pub struct BlkGrpDesc {
    pub blkumap: u32,
    pub inoumap: u32,
    pub inotbl: u32,
}

/// The filesystem superblock, every field under its descriptive name.
#[derive(Debug)]
pub struct SuperBlock {
    pub total_number_of_inodes_in_file_system: u32,
    pub total_number_of_blocks_in_file_system: u32,
    pub number_of_blocks_reserved_for_superuser: u32,
    pub total_number_of_unallocated_blocks: u32,
    pub total_number_of_unallocated_inodes: u32,
    pub block_number_of_the_block_containing_the_superblock: u32,
    pub log2_blocksize: u32,
    pub log2_fragment_size: u32,
    pub block_per_group: u32,
    pub number_of_fragments_in_each_block_group: u32,
    pub inode_per_group: u32,
    pub last_mount_time: u32,
    pub last_written_time: u32,
    pub number_of_times_the_volume_has_been_mounted_since_its_last_consistency_check: u16,
    pub number_of_mounts_allowed_before_a_consistency_check_must_be_done: u16,
    pub ext2_signature: u16,
    pub file_system_state: u16,
    pub what_to_do_when_an_error_is_detected: u16,
    pub minor_portion_of_version: u16,
    pub posix_time_of_last_consistency_check: u32,
    pub interval: u32,
    pub operating_system_id_from_which_the_filesystem_on_this_volume_was_created: u32,
    pub major_portion_of_version: u32,
    pub user_id_that_can_use_reserved_blocks: u16,
    pub group_id_that_can_use_reserved_blocks: u16,
    pub first_non_reserved: u32,
    pub inode_sz: u16,
}

/// The signature every mountable filesystem carries at offset 56.
pub const EXT2_SIGNATURE: u16 = 0xef53;

/// Decodes the superblock out of its first two sectors. Mounting an image
/// without the signature, or from before the first versioned revision, is
/// a fatal error, excluded here by precondition.
pub fn handle_super_block(data: &[u8]) -> (sb: SuperBlock)
    requires
        data@.len() >= 90,
        le16(data@, 56) == EXT2_SIGNATURE,
        le32(data@, 76) >= 1,
    ensures
        sb.total_number_of_inodes_in_file_system == le32(data@, 0),
        sb.total_number_of_blocks_in_file_system == le32(data@, 4),
        sb.number_of_blocks_reserved_for_superuser == le32(data@, 8),
        sb.total_number_of_unallocated_blocks == le32(data@, 12),
        sb.total_number_of_unallocated_inodes == le32(data@, 16),
        sb.block_number_of_the_block_containing_the_superblock == le32(data@, 20),
        sb.log2_blocksize == le32(data@, 24),
        sb.log2_fragment_size == le32(data@, 28),
        sb.block_per_group == le32(data@, 32),
        sb.number_of_fragments_in_each_block_group == le32(data@, 36),
        sb.inode_per_group == le32(data@, 40),
        sb.last_mount_time == le32(data@, 44),
        sb.last_written_time == le32(data@, 48),
        sb.number_of_times_the_volume_has_been_mounted_since_its_last_consistency_check == le16(
            data@,
            52,
        ),
        sb.number_of_mounts_allowed_before_a_consistency_check_must_be_done == le16(data@, 54),
        sb.ext2_signature == EXT2_SIGNATURE,
        sb.file_system_state == le16(data@, 58),
        sb.what_to_do_when_an_error_is_detected == le16(data@, 60),
        sb.minor_portion_of_version == le16(data@, 62),
        sb.posix_time_of_last_consistency_check == le32(data@, 64),
        sb.interval == le32(data@, 68),
        sb.operating_system_id_from_which_the_filesystem_on_this_volume_was_created == le32(
            data@,
            72,
        ),
        sb.major_portion_of_version == le32(data@, 76),
        sb.user_id_that_can_use_reserved_blocks == le16(data@, 80),
        sb.group_id_that_can_use_reserved_blocks == le16(data@, 82),
        sb.first_non_reserved == le32(data@, 84),
        sb.inode_sz == le16(data@, 88),
{
    SuperBlock {
        total_number_of_inodes_in_file_system: read_le32(data, 0),
        total_number_of_blocks_in_file_system: read_le32(data, 4),
        number_of_blocks_reserved_for_superuser: read_le32(data, 8),
        total_number_of_unallocated_blocks: read_le32(data, 12),
        total_number_of_unallocated_inodes: read_le32(data, 16),
        block_number_of_the_block_containing_the_superblock: read_le32(data, 20),
        log2_blocksize: read_le32(data, 24),
        log2_fragment_size: read_le32(data, 28),
        block_per_group: read_le32(data, 32),
        number_of_fragments_in_each_block_group: read_le32(data, 36),
        inode_per_group: read_le32(data, 40),
        last_mount_time: read_le32(data, 44),
        last_written_time: read_le32(data, 48),
        number_of_times_the_volume_has_been_mounted_since_its_last_consistency_check: read_le16(
            data,
            52,
        ),
        number_of_mounts_allowed_before_a_consistency_check_must_be_done: read_le16(data, 54),
        ext2_signature: read_le16(data, 56),
        file_system_state: read_le16(data, 58),
        what_to_do_when_an_error_is_detected: read_le16(data, 60),
        minor_portion_of_version: read_le16(data, 62),
        posix_time_of_last_consistency_check: read_le32(data, 64),
        interval: read_le32(data, 68),
        operating_system_id_from_which_the_filesystem_on_this_volume_was_created: read_le32(
            data,
            72,
        ),
        major_portion_of_version: read_le32(data, 76),
        user_id_that_can_use_reserved_blocks: read_le16(data, 80),
        group_id_that_can_use_reserved_blocks: read_le16(data, 82),
        first_non_reserved: read_le32(data, 84),
        inode_sz: read_le16(data, 88),
    }
}

/// The permission and type bits of one inode.
#[derive(Debug, Clone, Copy, PartialEq, Eq, Structural)]
pub struct Ext2InodeAttr {
    pub bits: u16,
}

/// The symlink type bits.
pub const ATTR_SYMLINK: u16 = 0xA000;

/// The directory type bit.
pub const ATTR_DIRECTORY: u16 = 0x4000;

/// The character-device type bit.
pub const ATTR_CHARACTERDEV: u16 = 0x2000;

/// The block-device type bits.
pub const ATTR_BLOCKDEV: u16 = 0x6000;

/// The regular-file type bit.
pub const ATTR_REGULARFILE: u16 = 0x8000;

/// Whether all the given bits are set in `bits`.
pub open spec fn has_bits(bits: u16, flag: u16) -> bool {
    bits & flag == flag
}

/// The type character of a permission listing: directory, symlink,
/// character device, block device, regular file, or unknown — first match
/// in that order.
pub open spec fn attr_type_char(bits: u16) -> char {
    if has_bits(bits, ATTR_DIRECTORY) {
        'd'
    } else if has_bits(bits, ATTR_SYMLINK) {
        'l'
    } else if has_bits(bits, ATTR_CHARACTERDEV) {
        'c'
    } else if has_bits(bits, ATTR_BLOCKDEV) {
        'b'
    } else if has_bits(bits, ATTR_REGULARFILE) {
        '-'
    } else {
        '?'
    }
}

/// One permission character: the flag's letter when the bit is set, a dash
/// otherwise.
pub open spec fn perm_char(bits: u16, flag: u16, letter: char) -> char {
    if has_bits(bits, flag) {
        letter
    } else {
        '-'
    }
}

/// The whole permission listing: the type character, then read, write and
/// execute for the user, the group and others.
pub open spec fn attr_str(bits: u16) -> Seq<char> {
    seq![
        attr_type_char(bits),
        perm_char(bits, 0x100, 'r'),
        perm_char(bits, 0x080, 'w'),
        perm_char(bits, 0x040, 'x'),
        perm_char(bits, 0x020, 'r'),
        perm_char(bits, 0x010, 'w'),
        perm_char(bits, 0x008, 'x'),
        perm_char(bits, 0x004, 'r'),
        perm_char(bits, 0x002, 'w'),
        perm_char(bits, 0x001, 'x'),
    ]
}

impl Ext2InodeAttr {
    /// Whether all the given bits are set.
    pub fn contains(&self, flag: u16) -> (r: bool)
        ensures
            r == has_bits(self.bits, flag),
    {
        self.bits & flag == flag
    }

    /// Spells the attribute as the familiar ten-character permission
    /// listing.
    pub fn to_str(&self) -> (r: String)
        ensures
            r@ == attr_str(self.bits),
    {
        proof {
            reveal_strlit("d");
            reveal_strlit("l");
            reveal_strlit("c");
            reveal_strlit("b");
            reveal_strlit("-");
            reveal_strlit("?");
        }
        let mut s = String::new();
        if self.contains(ATTR_DIRECTORY) {
            s.append("d");
        } else if self.contains(ATTR_SYMLINK) {
            s.append("l");
        } else if self.contains(ATTR_CHARACTERDEV) {
            s.append("c");
        } else if self.contains(ATTR_BLOCKDEV) {
            s.append("b");
        } else if self.contains(ATTR_REGULARFILE) {
            s.append("-");
        } else {
            s.append("?");
        }
        push_rwx(&mut s, self.bits, 0x100, 0x080, 0x040);
        push_rwx(&mut s, self.bits, 0x020, 0x010, 0x008);
        push_rwx(&mut s, self.bits, 0x004, 0x002, 0x001);
        proof {
            assert(s@ =~= attr_str(self.bits));
        }
        s
    }
}

/// Appends one read/write/execute triple of a permission listing.
fn push_rwx(s: &mut String, bits: u16, rf: u16, wf: u16, xf: u16)
    ensures
        final(s)@ == old(s)@ + seq![
            perm_char(bits, rf, 'r'),
            perm_char(bits, wf, 'w'),
            perm_char(bits, xf, 'x'),
        ],
{
    proof {
        reveal_strlit("r");
        reveal_strlit("w");
        reveal_strlit("x");
        reveal_strlit("-");
    }
    if bits & rf == rf {
        s.append("r");
    } else {
        s.append("-");
    }
    if bits & wf == wf {
        s.append("w");
    } else {
        s.append("-");
    }
    if bits & xf == xf {
        s.append("x");
    } else {
        s.append("-");
    }
    proof {
        assert(s@ =~= old(s)@ + seq![
            perm_char(bits, rf, 'r'),
            perm_char(bits, wf, 'w'),
            perm_char(bits, xf, 'x'),
        ]);
    }
}

/// Reads `len` bytes at the byte address `addr` of the device, sector by
/// sector: a successful read delivers exactly `len` bytes.
pub fn readarea<D: RODev>(addr: u64, len: u64, dev: &mut D) -> (r: Result<Vec<u8>, String>)
    requires
        addr / 512 + (len + addr % 512 + 511) / 512 <= u32::MAX,
        len <= usize::MAX,
    ensures
        r matches Ok(v) ==> v@.len() == len,
{
    let lba = addr / 512;
    let extraoff = addr % 512;
    let totallen = (len + extraoff + 511) / 512;
    let mut d: Vec<u8> = Vec::new();
    let mut i: u64 = 0;
    while i < totallen
        invariant
            i <= totallen,
            lba + totallen <= u32::MAX,
            d@.len() == i * 512,
        decreases totallen - i,
    {
        let mut sector = dev.read_from((i + lba) as u32)?;
        d.append(&mut sector);
        i = i + 1;
    }
    proof {
        assert(totallen * 512 >= extraoff + len) by (nonlinear_arith)
            requires
                totallen == (len + extraoff + 511) / 512,
                0 <= len,
                0 <= extraoff,
        ;
    }
    let mut n = d.split_off(extraoff as usize);
    n.truncate(len as usize);
    proof {
        assert(n@.len() == len);
    }
    Ok(n)
}

/// Reads the descriptor of block group `blkgrp` out of the descriptor
/// table that follows the superblock.
pub fn get_blk_grp_desc<D: RODev>(blkgrp: u64, dev: &mut D) -> (r: Result<BlkGrpDesc, String>)
    requires
        blkgrp <= 0xFFFFFF,
    ensures
        true,
{
    let a = readarea(0x800 + blkgrp * 0x20, 32, dev)?;
    Ok(
        BlkGrpDesc {
            blkumap: read_le32(a.as_slice(), 0),
            inoumap: read_le32(a.as_slice(), 4),
            inotbl: read_le32(a.as_slice(), 8),
        },
    )
}

} // verus!
