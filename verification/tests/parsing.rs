use ohes_core::{chars2int, i2s, parse, parse_one, prntguuid, Offreader};
use ohes_core::{handle_super_block, Ext2InodeAttr};
use ohes_core::{ArrayQueue, GetGPTPartitions, VecDev};

fn field(value: &str, width: usize) -> Vec<u8> {
    let mut v = vec![b'0'; width - value.len()];
    v.extend_from_slice(value.as_bytes());
    v
}

fn cpio_member(name: &[u8], data: &[u8]) -> Vec<u8> {
    let mut image = Vec::new();
    image.extend(field("70707", 6)); // magic
    image.extend(field("1", 6)); // dev
    image.extend(field("2", 6)); // ino
    image.extend(field("644", 6)); // mode
    image.extend(field("0", 6)); // uid
    image.extend(field("0", 6)); // gid
    image.extend(field("1", 6)); // nlink
    image.extend(field("0", 6)); // rdev
    image.extend(field("0", 11)); // mtime
    let ns = format!("{:o}", name.len() + 1);
    image.extend(field(&ns, 6)); // namesize, including the terminator
    let fs = format!("{:o}", data.len());
    image.extend(field(&fs, 11)); // filesize
    image.extend_from_slice(name);
    image.push(0);
    image.extend_from_slice(data);
    image
}

#[test]
fn chars2int_reads_octal_fields() {
    assert_eq!(chars2int(b"000017"), 0o17);
    assert_eq!(chars2int(b"000000"), 0);
    assert_eq!(chars2int(b"70707"), 0o70707);
}

#[test]
fn parse_one_reads_a_member() {
    let image = cpio_member(b"hi", b"ab");
    let mut drv = Offreader::new(image);
    let e = parse_one(&mut drv).expect("member parses");
    assert_eq!(e.magic, 0o70707);
    assert_eq!(e.mode, 0o644);
    assert_eq!(e.namesize, 3);
    assert_eq!(e.filesize, 2);
    assert_eq!(e.name, b"hi".to_vec());
    assert_eq!(e.data, b"ab".to_vec());
}

#[test]
fn parse_reads_members_until_the_trailer() {
    let mut image = cpio_member(b"one", b"111");
    image.extend(cpio_member(b"two", b"22"));
    image.extend(cpio_member(b"TRAILER!!!", b""));
    let mut drv = Offreader::new(image);
    let all = parse(&mut drv).expect("archive parses");
    assert_eq!(all.len(), 2);
    assert_eq!(all[0].name, b"one".to_vec());
    assert_eq!(all[0].data, b"111".to_vec());
    assert_eq!(all[1].name, b"two".to_vec());
    assert_eq!(all[1].data, b"22".to_vec());
}

#[test]
fn parse_of_an_empty_image_fails() {
    let mut drv = Offreader::new(Vec::new());
    assert!(parse(&mut drv).is_err());
}

#[test]
fn offreader_offset_and_consume() {
    let mut drv = Offreader::new(vec![10, 20, 30, 40, 50]);
    let mut ahead = drv.offset(2).expect("in range");
    assert_eq!(ahead.read_consume(2).expect("two bytes"), vec![30, 40]);
    assert!(drv.offset(9).is_err());
    assert_eq!(drv.read_consume(1).expect("one byte"), vec![10]);
    assert!(drv.read_consume(9).is_err());
}

#[test]
fn guid_spelling_matches_the_hex_crate() {
    let g: Vec<u8> = (0u8..16).collect();
    let spelled = prntguuid(&g);
    let expected = format!(
        "{}-{}-{}-{}",
        hex::encode(&g[0..4]),
        hex::encode(&g[4..6]),
        hex::encode(&g[6..8]),
        hex::encode(&g[8..14]),
    );
    assert_eq!(spelled, expected);
}

#[test]
fn gpt_parse_finds_the_partition() {
    let mut image = vec![0u8; 512 * 3];
    // sector 1: the table header
    image[512..520].copy_from_slice(b"EFI PART");
    image[512 + 0x48] = 2; // entries start at sector 2
    image[512 + 0x50] = 1; // one entry
    // sector 2: one used entry
    let e = 1024;
    image[e] = 0xAB; // a non-zero type field marks the entry used
    image[e + 0x20] = 10; // first sector
    image[e + 0x28] = 19; // last sector
    image[e + 0x38..e + 0x3C].copy_from_slice(b"boot");
    let mut dev = VecDev { image };
    let parts = dev.get_gpt_partitions().expect("table parses");
    assert_eq!(parts.len(), 1);
    assert_eq!(parts[0].slba(), 10);
    assert_eq!(parts[0].sz(), 10);
    assert!(parts[0].name().starts_with("boot"));
    assert!(parts[0].guid().starts_with("00000000-"));
}

#[test]
fn gpt_parse_rejects_a_plain_image() {
    let mut dev = VecDev { image: vec![0u8; 1024] };
    assert!(dev.get_gpt_partitions().is_err());
}

#[test]
fn superblock_fields_decode() {
    let mut data = vec![0u8; 96];
    data[0] = 32; // inodes
    data[4] = 64; // blocks
    data[24] = 1; // block size exponent
    data[40] = 8; // inodes per group
    data[56] = 0x53;
    data[57] = 0xef; // signature
    data[76] = 1; // major revision
    data[88] = 128; // inode size
    let sb = handle_super_block(&data);
    assert_eq!(sb.total_number_of_inodes_in_file_system, 32);
    assert_eq!(sb.total_number_of_blocks_in_file_system, 64);
    assert_eq!(sb.log2_blocksize, 1);
    assert_eq!(sb.inode_per_group, 8);
    assert_eq!(sb.ext2_signature, 0xef53);
    assert_eq!(sb.major_portion_of_version, 1);
    assert_eq!(sb.inode_sz, 128);
}

#[test]
fn inode_attributes_spell_as_a_listing() {
    let file = Ext2InodeAttr { bits: 0x81A4 };
    assert_eq!(file.to_str(), "-rw-r--r--");
    let dir = Ext2InodeAttr { bits: 0x41ED };
    assert_eq!(dir.to_str(), "drwxr-xr-x");
    let link = Ext2InodeAttr { bits: 0xA1FF };
    assert_eq!(link.to_str(), "lrwxrwxrwx");
}

#[test]
fn decimal_spelling() {
    assert_eq!(i2s(0), "0");
    assert_eq!(i2s(7), "7");
    assert_eq!(i2s(5007), "5007");
    assert_eq!(i2s(4294967295), "4294967295");
}

#[test]
fn ring_queue_is_first_in_first_out() {
    let mut q: ArrayQueue<u32> = ArrayQueue::new(3);
    q.push(1);
    q.push(2);
    assert_eq!(q.pop(), 1);
    q.push(3);
    q.push(4);
    assert_eq!(q.pop(), 2);
    assert_eq!(q.pop(), 3);
    assert_eq!(q.pop(), 4);
    assert_eq!(q.count, 0);
}

#[test]
fn symbol_lookup_walks_down_to_the_nearest_symbol() {
    let tab = vec![
        (0xf00000010u64, String::from("boot_entry")),
        (0xf00000040u64, String::from("main_loop")),
    ];
    assert_eq!(
        ohes_core::addr2sym(&tab, 0xf00000012),
        Some(String::from("boot_entry"))
    );
    assert_eq!(
        ohes_core::addr2sym(&tab, 0xf00000040),
        Some(String::from("main_loop"))
    );
    assert_eq!(ohes_core::addr2sym(&tab, 0xf0000000f), None);
    assert_eq!(ohes_core::addr2sym(&tab, 0x100), None);
}

#[test]
fn pci_lookup_has_no_table_in_this_build() {
    assert_eq!(ohes_core::idlookup(0x8086, 0x100E), None);
}

#[test]
fn allocator_shim_formulas() {
    assert_eq!(ohes_core::extra_brk(17), 0);
    assert_eq!(ohes_core::extra_fresh(4), 64);
    assert_eq!(ohes_core::extra_fresh(100), 200);
    assert_eq!(ohes_core::extra_fresh(9999), 1024);
    ohes_core::default_oom_handler();
}

#[test]
fn build_switches() {
    assert!(!ohes_core::is_test());
    assert!(!ohes_core::should_conio());
    assert!(!ohes_core::should_displayio());
    assert!(!ohes_core::should_fini_exit());
    assert!(ohes_core::should_fini_wait());
    assert!(!ohes_core::should_debug_log());
    ohes_core::check_const_correct();
}

#[test]
fn mutex_carries_its_value() {
    let mut m = ohes_core::Mutex::new(5u32);
    assert_eq!(*m.get(), 5);
    assert_eq!(m.replace(9), 5);
    assert_eq!(*m.get(), 9);
}

#[test]
fn event_registry_round_trip() {
    let mut reg = ohes_core::EventRegistry::new();
    let handle = ohes_core::create_listener(&mut reg, b"disk".to_vec(), true);
    assert_eq!(handle.get_name(&reg), Some(b"disk".to_vec()));
    let found = ohes_core::get_id_by_name(&reg, &b"disk".to_vec()).expect("public name");
    assert_eq!(found, handle);
    assert!(ohes_core::get_id_by_name(&reg, &b"net".to_vec()).is_none());
    handle.listen(&mut reg, b"spin".to_vec(), 41).expect("listener exists");
    handle.listen(&mut reg, b"spin".to_vec(), 42).expect("listener exists");
    assert_eq!(handle.emit(&reg, &b"spin".to_vec()).expect("listener exists"), vec![41, 42]);
    assert_eq!(handle.emit(&reg, &b"other".to_vec()).expect("listener exists"), Vec::<u64>::new());
    let ghostly = ohes_core::EventListenerIDInterface { id: 999 };
    assert!(ghostly.emit(&reg, &b"spin".to_vec()).is_err());
}

#[test]
fn jmpbuf_starts_blank() {
    let b = ohes_core::Jmpbuf::new();
    assert_eq!(b.rbx, 0);
    assert_eq!(b.rsp, 0);
    assert_eq!(b.rip, 0);
}

#[test]
fn member_with_an_empty_name_is_refused() {
    let mut image = Vec::new();
    for _ in 0..8 {
        image.extend(field("0", 6));
    }
    image.extend(field("0", 11)); // mtime
    image.extend(field("0", 6)); // namesize of zero
    image.extend(field("0", 11)); // filesize
    let mut drv = Offreader::new(image);
    assert!(parse_one(&mut drv).is_err());
}

#[test]
fn truncated_member_is_refused() {
    let image = cpio_member(b"hi", b"ab");
    let cut = image[..image.len() - 1].to_vec();
    let mut drv = Offreader::new(cut);
    assert!(parse_one(&mut drv).is_err());
}
