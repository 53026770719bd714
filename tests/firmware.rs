use efi::boot::{memory_map_buffer_size, BootServices, SearchStep, TimerType, Tpl, INITIAL_HANDLES, MAX_HANDLES};
use efi::console::{PrintAction, SimpleTextInput, SimpleTextOutput};
use efi::file::{file_info_guid, File, FileInfo, OpenResult, SeekFrom, SimpleFileSystem, EndOfFile, MODE_READ};
use efi::graphics::{BlitOperation, GraphicsMode, GraphicsOutput, ModeInfo};
use efi::memory::{alloc_pages, page_request, AllocAt, AllocType, MemoryMap, MemoryType, PageFree};
use efi::protocol::{LoadedImage, Protocol};
use efi::table::{Consoles, ConfigEntry, Context, RuntimeServices, System, Table, TableHeader};
use efi::{Guid, Handle, Status};

fn units(s: &str) -> Vec<u16> {
    s.encode_utf16().collect()
}

fn descriptor_bytes(typ: u32, phys: u64, pages: u64, stride: usize) -> Vec<u8> {
    let mut b = Vec::new();
    b.extend_from_slice(&typ.to_le_bytes());
    b.extend_from_slice(&0u32.to_le_bytes());
    b.extend_from_slice(&phys.to_le_bytes());
    b.extend_from_slice(&phys.to_le_bytes());
    b.extend_from_slice(&pages.to_le_bytes());
    b.extend_from_slice(&0xFu64.to_le_bytes());
    b.resize(stride, 0xEE);
    b
}

fn run_print(job: &mut efi::console::PrintJob, replies: &[Status]) -> (Vec<Vec<u16>>, Status) {
    let mut written = Vec::new();
    let mut action = job.start();
    let mut k = 0;
    loop {
        match action {
            PrintAction::Write(i) => {
                written.push(job.chunk(i).to_vec());
                let reply = if k < replies.len() { replies[k] } else { Status::Success };
                k += 1;
                action = job.step(reply);
            }
            PrintAction::Done(s) => return (written, s),
        }
    }
}

#[test]
fn status_codes_round_trip() {
    assert_eq!(Status::from_code(0), Status::Success);
    assert_eq!(Status::from_code(0x8000_0000_0000_0005), Status::BufferTooSmall);
    assert_eq!(Status::from_code(0x8000_0000_0000_000E), Status::NotFound);
    assert_eq!(Status::from_code(0x8000_0000_0000_0020), Status::Error(0x20));
    assert_eq!(Status::from_code(3), Status::Warning(3));
    for code in [0u64, 1, 0x8000_0000_0000_0001, 0x8000_0000_0000_000F, 0x8000_0000_0000_0123] {
        assert_eq!(Status::from_code(code).code(), code);
    }
    assert!(Status::Success.is_success());
    assert!(!Status::DeviceError.is_success());
}

#[test]
fn lookup_without_capability_is_absent() {
    let h = Handle::from_address(0x1000);
    let q = h.protocol_query::<SimpleTextOutput>();
    assert_eq!(q.handle, h);
    assert_eq!(q.guid, SimpleTextOutput::guid());
    assert!(h.get_protocol::<SimpleTextOutput>(Status::Unsupported, 0).is_none());
    assert!(h.get_protocol::<SimpleTextOutput>(Status::Unsupported, 0xdead).is_none());
    assert!(h.get_protocol::<GraphicsOutput>(Status::Success, 0).is_none());
    let out = h.get_protocol::<SimpleTextOutput>(Status::Success, 0x4000).unwrap();
    assert_eq!(out.interface(), 0x4000);
}

#[test]
fn protocol_identifiers() {
    assert_eq!(SimpleTextInput::guid(), Guid(0x387477C1, 0x69C7, 0x11D2, 0x8E, 0x39, 0x00, 0xA0, 0xC9, 0x69, 0x72, 0x3B));
    assert_eq!(SimpleTextOutput::guid(), Guid(0x387477C2, 0x69C7, 0x11D2, 0x8E, 0x39, 0x00, 0xA0, 0xC9, 0x69, 0x72, 0x3B));
    assert_eq!(GraphicsOutput::guid(), Guid(0x9042A9DE, 0x23DC, 0x4A38, 0x96, 0xFB, 0x7A, 0xDE, 0xD0, 0x80, 0x51, 0x6A));
    assert_eq!(LoadedImage::guid(), Guid(0x5B1B31A1, 0x9562, 0x11D2, 0x8E, 0x3F, 0x00, 0xA0, 0xC9, 0x69, 0x72, 0x3B));
    assert_eq!(SimpleFileSystem::guid(), Guid(0x964E5B22, 0x6459, 0x11D2, 0x8E, 0x39, 0x00, 0xA0, 0xC9, 0x69, 0x72, 0x3B));
    assert_eq!(file_info_guid(), Guid(0x09576E92, 0x6D3F, 0x11D2, 0x8E, 0x39, 0x00, 0xA0, 0xC9, 0x69, 0x72, 0x3B));
}

#[test]
fn memory_map_stride_walk() {
    let stride = 48;
    let mut mem = Vec::new();
    mem.extend(descriptor_bytes(7, 0x10_0000, 16, stride));
    mem.extend(descriptor_bytes(2, 0x20_0000, 2, stride));
    mem.extend(descriptor_bytes(99, 0x30_0000, 1, stride));
    mem.extend(vec![0u8; 20]);
    let size = mem.len();
    let map = MemoryMap::new(mem, stride).unwrap();
    assert_eq!(map.get_descriptor_count(), size / stride);
    assert_eq!(map.get_descriptor_count(), 3);
    let d = map.get_descriptor(1);
    assert_eq!((d.typ, d.phys, d.count, d.attribute), (2, 0x20_0000, 2, 0xF));
    assert_eq!(map.descriptors().len(), 3);
    let mut it = map.iter();
    assert_eq!(it.next(), Some((0x10_0000, 16 * 4096, MemoryType::Conventional)));
    assert_eq!(it.next(), Some((0x20_0000, 2 * 4096, MemoryType::LoaderData)));
    assert_eq!(it.next(), Some((0x30_0000, 4096, MemoryType::Reserved)));
    assert_eq!(it.next(), None);
    assert_eq!(it.next(), None);
}

#[test]
fn memory_map_rejects_short_stride() {
    assert!(MemoryMap::new(vec![0u8; 80], 39).is_none());
    assert!(MemoryMap::new(vec![0u8; 80], 40).is_some());
}

#[test]
fn memory_map_two_phase() {
    let bs = BootServices::from_address(0x8000);
    assert_eq!(memory_map_buffer_size(960, 48), Some(1008));
    assert_eq!(memory_map_buffer_size(usize::MAX, 48), None);
    let buffer = descriptor_bytes(4, 0x1000, 3, 48).repeat(3);
    let (map, key) = bs.memory_map(Status::Success, buffer.clone(), 96, 48, 77).unwrap();
    assert_eq!(key, 77);
    assert_eq!(map.get_size(), 96);
    assert_eq!(map.get_descriptor_count(), 2);
    assert!(matches!(bs.memory_map(Status::Success, buffer.clone(), 1000, 48, 1), Err(Status::BadBufferSize)));
    assert!(matches!(bs.memory_map(Status::Success, buffer, 96, 8, 1), Err(Status::BadBufferSize)));
}

#[test]
fn memory_type_codes() {
    assert_eq!(MemoryType::from_code(0), Some(MemoryType::Reserved));
    assert_eq!(MemoryType::from_code(9), Some(MemoryType::AcpiReclaimable));
    assert_eq!(MemoryType::from_code(13), Some(MemoryType::PalCode));
    assert_eq!(MemoryType::from_code(14), None);
    assert_eq!(MemoryType::LoaderData.code(), 2);
}

#[test]
fn handle_enumeration_grows_buffer() {
    let bs = BootServices::from_address(0x8000);
    let guid = SimpleFileSystem::guid();
    let mut search = bs.handles_by_protocol(&guid);
    assert_eq!(search.capacity(), INITIAL_HANDLES);
    assert_eq!(search.capacity(), 32);
    let first: Vec<Handle> = (0..32).map(|i| Handle::from_address(0x100 + i)).collect();
    match search.step(Status::BufferTooSmall, 64 * 8, 8, first) {
        SearchStep::Retry(n) => assert_eq!(n, 64),
        other => panic!("unexpected {:?}", other),
    }
    assert_eq!(search.capacity(), 64);
    let second: Vec<Handle> = (0..64).map(|i| Handle::from_address(0x100 + i)).collect();
    match search.step(Status::Success, 64 * 8, 8, second.clone()) {
        SearchStep::Found(v) => assert_eq!(v, second),
        other => panic!("unexpected {:?}", other),
    }
    assert_eq!(search.guid(), guid);
}

#[test]
fn handle_enumeration_other_errors() {
    let bs = BootServices::from_address(0x8000);
    let mut search = bs.handles_by_protocol(&GraphicsOutput::guid());
    let buf: Vec<Handle> = (0..32).map(Handle::from_address).collect();
    match search.step(Status::Success, 3 * 8, 8, buf.clone()) {
        SearchStep::Found(v) => assert_eq!(v, buf[..3].to_vec()),
        other => panic!("unexpected {:?}", other),
    }
    match search.step(Status::NotFound, 0, 8, buf) {
        SearchStep::Failed(s) => assert_eq!(s, Status::NotFound),
        other => panic!("unexpected {:?}", other),
    }
    let mut cap = search.capacity();
    while cap * 2 <= MAX_HANDLES {
        let b = vec![Handle::from_address(0); cap];
        assert!(matches!(search.step(Status::BufferTooSmall, 0, 8, b), SearchStep::Retry(_)));
        cap = search.capacity();
    }
    let b = vec![Handle::from_address(0); cap];
    assert!(matches!(search.step(Status::BufferTooSmall, 0, 8, b), SearchStep::Failed(Status::BufferTooSmall)));
}

#[test]
fn page_allocation_released_once() {
    let req = page_request(AllocAt::Anywhere, MemoryType::LoaderData, 2).unwrap();
    assert_eq!(req.alloc_type, AllocType::AnyPages);
    assert_eq!(req.address, 0);
    let pages = alloc_pages(&req, Status::Success, 0x7_0000).unwrap();
    assert_eq!(pages.get_ptr(), 0x7_0000);
    assert_eq!(pages.get_size(), 8192);
    assert_eq!(pages.release(), PageFree { address: 0x7_0000, count: 2 });
}

#[test]
fn page_requests_by_placement() {
    let below = page_request(AllocAt::Below(0x1_0000_0000), MemoryType::BootServicesData, 1).unwrap();
    assert_eq!((below.alloc_type, below.address), (AllocType::MaxAddress, 0x1_0000_0000));
    let at = page_request(AllocAt::At(0x20_0000), MemoryType::LoaderCode, 4).unwrap();
    assert_eq!((at.alloc_type, at.address, at.count), (AllocType::Address, 0x20_0000, 4));
    assert!(page_request(AllocAt::Anywhere, MemoryType::LoaderData, usize::MAX / 4096 + 1).is_none());
    assert!(alloc_pages(&at, Status::OutOfResources, 0).is_none());
}

#[test]
fn pool_allocation_reply() {
    let bs = BootServices::from_address(0x8000);
    assert_eq!(bs.allocate_pool(Status::Success, 0x5000), Some(0x5000));
    assert_eq!(bs.allocate_pool(Status::OutOfResources, 0x5000), None);
}

#[test]
fn console_println_hi() {
    let out = SimpleTextOutput::from_interface(0x9000);
    let mut job = efi::console::println(&out, "hi");
    let (written, status) = run_print(&mut job, &[]);
    assert_eq!(status, Status::Success);
    assert_eq!(written, vec![vec![0x68u16, 0x69], vec![0x0D, 0x0A]]);
}

#[test]
fn console_chunks_long_text() {
    let out = SimpleTextOutput::from_interface(0x9000);
    let text: String = std::iter::repeat('a').take(300).collect();
    let mut job = out.print(&text);
    let (written, status) = run_print(&mut job, &[]);
    assert_eq!(status, Status::Success);
    assert_eq!(written.iter().map(|c| c.len()).collect::<Vec<_>>(), vec![128, 128, 44]);
    assert_eq!(written.concat(), units(&text));
}

#[test]
fn console_keeps_surrogate_pairs_whole() {
    let out = SimpleTextOutput::from_interface(0x9000);
    let text: String = std::iter::repeat('b').take(127).chain(std::iter::once('\u{1F600}')).chain("z".chars()).collect();
    let mut job = out.print(&text);
    let (written, _) = run_print(&mut job, &[]);
    assert_eq!(written[0].len(), 129);
    assert_eq!(written[1], vec![0x7A]);
    assert_eq!(written.concat(), units(&text));
}

#[test]
fn console_stops_at_first_failure() {
    let out = SimpleTextOutput::from_interface(0x9000);
    let text: String = std::iter::repeat('c').take(400).collect();
    let mut job = out.print(&text);
    let (written, status) = run_print(&mut job, &[Status::Success, Status::DeviceError]);
    assert_eq!(status, Status::DeviceError);
    assert_eq!(written.len(), 2);
}

#[test]
fn console_empty_print_writes_nothing() {
    let out = SimpleTextOutput::from_interface(0x9000);
    let mut job = out.print("");
    assert_eq!(job.len(), 0);
    assert_eq!(job.start(), PrintAction::Done(Status::Success));
}

fn info_bytes(file_size: u64, attributes: u64) -> Vec<u8> {
    let mut b = vec![0u8; 80];
    b[0..8].copy_from_slice(&336u64.to_le_bytes());
    b[8..16].copy_from_slice(&file_size.to_le_bytes());
    b[16..24].copy_from_slice(&4096u64.to_le_bytes());
    b[24..26].copy_from_slice(&2016u16.to_le_bytes());
    b[26] = 7;
    b[27] = 4;
    b[36..38].copy_from_slice(&(-60i16).to_le_bytes());
    b[72..80].copy_from_slice(&attributes.to_le_bytes());
    b
}

#[test]
fn file_info_parse() {
    let info = FileInfo::parse(&info_bytes(1234, 0x20)).unwrap();
    assert_eq!(info.size, 336);
    assert_eq!(info.file_size, 1234);
    assert_eq!(info.physical_size, 4096);
    assert_eq!((info.created.year, info.created.month, info.created.day), (2016, 7, 4));
    assert_eq!(info.created.time_zone, -60);
    assert!(!info.is_directory());
    assert!(FileInfo::parse(&[0u8; 79]).is_none());
}

#[test]
fn open_classifies_by_directory_bit() {
    let fs = SimpleFileSystem::from_interface(0x100);
    assert!(fs.open(Status::DeviceError, 0x200).is_none());
    let root = fs.open(Status::Success, 0x200).unwrap();
    assert_eq!(root.protocol(), 0x200);
    let req = root.open_request("EFI\\boot");
    assert_eq!(req.directory, 0x200);
    assert_eq!(req.mode, MODE_READ);
    assert_eq!(req.attributes, 0);
    let mut expected = units("EFI\\boot");
    expected.push(0);
    assert_eq!(req.path, expected);
    let dir_info = FileInfo::parse(&info_bytes(0, 0x10)).unwrap();
    let file_info = FileInfo::parse(&info_bytes(10, 0x01)).unwrap();
    assert!(matches!(root.open(Status::Success, 0x300, Some(&dir_info)), OpenResult::Directory(d) if d.protocol() == 0x300));
    assert!(matches!(root.open(Status::Success, 0x400, Some(&file_info)), OpenResult::File(f) if f.protocol() == 0x400));
    assert!(matches!(root.open(Status::NotFound, 0, None), OpenResult::NotFound));
}

#[test]
fn directory_files_is_empty() {
    let fs = SimpleFileSystem::from_interface(0x100);
    let mut root = fs.open(Status::Success, 0x200).unwrap();
    let mut files = root.files();
    assert_eq!(files.next(), None);
}

fn open_file(size: u64) -> File {
    let fs = SimpleFileSystem::from_interface(0x100);
    let root = fs.open(Status::Success, 0x200).unwrap();
    let info = FileInfo::parse(&info_bytes(size, 0)).unwrap();
    match root.open(Status::Success, 0x300, Some(&info)) {
        OpenResult::File(f) => f,
        _ => panic!("not a file"),
    }
}

#[test]
fn read_at_end_of_file() {
    let mut f = open_file(10);
    assert_eq!(f.read(Status::Success, 0, 64), Err(EndOfFile));
    assert_eq!(f.read(Status::DeviceError, 5, 64), Err(EndOfFile));
    assert_eq!(f.read(Status::Success, 65, 64), Err(EndOfFile));
    assert_eq!(f.read(Status::Success, 5, 64), Ok(5));
}

#[test]
fn chunked_read_covers_file() {
    let mut f = open_file(1000);
    let size = f.size(Status::Success, &info_bytes(1000, 0)).unwrap();
    assert_eq!(size, 1000);
    let data: Vec<u8> = (0..1000).map(|i| (i % 251) as u8).collect();
    let mut position = 0usize;
    let mut out = Vec::new();
    for request in [7usize, 300, 1, 512, 999].iter().cycle() {
        let delivered = std::cmp::min(*request, data.len() - position);
        match f.read(Status::Success, delivered, *request) {
            Ok(n) => {
                assert!(n <= size as usize - position);
                out.extend_from_slice(&data[position..position + n]);
                position += n;
            }
            Err(EndOfFile) => break,
        }
    }
    assert_eq!(out.len() as u64, size);
    assert_eq!(out, data);
}

#[test]
fn file_size_short_record() {
    let f = open_file(10);
    assert_eq!(f.size(Status::Success, &[0u8; 12]), None);
}

#[test]
fn seek_positions() {
    let mut f = open_file(100);
    for _ in 0..2 {
        let p = f.seek_position(SeekFrom::Start(0), 100, 37).unwrap();
        assert_eq!(f.seek(Status::Success, p), Ok(0));
        assert_eq!(f.tell(Status::Success, p), Ok(0));
    }
    assert_eq!(f.seek_position(SeekFrom::End(-10), 100, 0), Some(90));
    assert_eq!(f.seek_position(SeekFrom::Current(5), 100, 37), Some(42));
    assert_eq!(f.seek_position(SeekFrom::Current(-38), 100, 37), None);
    assert_eq!(f.seek_position(SeekFrom::End(1), u64::MAX, 0), None);
    assert_eq!(f.seek(Status::DeviceError, 3), Err(()));
    assert_eq!(f.tell(Status::DeviceError, 3), Err(()));
}

#[test]
fn graphics_modes_and_fill() {
    let gop = GraphicsOutput::from_interface(0x500);
    let mut rec = Vec::new();
    for v in [1u32, 1024, 768, 1, 0xFF0000, 0xFF00, 0xFF, 0, 1024] {
        rec.extend_from_slice(&v.to_le_bytes());
    }
    let info = gop.query_mode(Status::Success, &rec).unwrap();
    assert_eq!((info.x_res, info.y_res, info.stride), (1024, 768, 1024));
    assert_eq!(info.bitmask.red, 0xFF0000);
    assert_eq!(gop.query_mode(Status::Unsupported, &rec), None);
    assert_eq!(ModeInfo::parse(&rec[..35]), None);

    let mut m = Vec::new();
    m.extend_from_slice(&3u32.to_le_bytes());
    m.extend_from_slice(&0u32.to_le_bytes());
    m.extend_from_slice(&0x600u64.to_le_bytes());
    m.extend_from_slice(&36u64.to_le_bytes());
    m.extend_from_slice(&0x8000_0000u64.to_le_bytes());
    m.extend_from_slice(&(1024u64 * 768 * 4).to_le_bytes());
    let mode = GraphicsMode::parse(&m).unwrap();
    assert_eq!(gop.get_mode_count(&mode), 3);
    assert_eq!(gop.set_mode(2), 2);
    assert_eq!(gop.set_mode(3), 3);
    assert_eq!(gop.set_mode(u32::MAX), u32::MAX);
    let fb = gop.get_framebuffer(&mode).unwrap();
    assert_eq!((fb.base, fb.size), (0x8000_0000, 1024 * 768 * 4));
    let blit_only = GraphicsMode { framebuffer_base: 0, ..mode };
    assert_eq!(gop.get_framebuffer(&blit_only), None);

    let req = gop.fill(0x00FF00, 10, 20, 30, 40);
    assert_eq!(req.operation, BlitOperation::Fill);
    assert_eq!((req.color, req.destination_x, req.destination_y, req.width, req.height), (0x00FF00, 10, 20, 30, 40));
    assert_eq!((req.source_x, req.source_y, req.delta), (0, 0, 0));
}

#[test]
fn system_table_accessors() {
    let mut hb = Vec::new();
    hb.extend_from_slice(&0x5453595320494249u64.to_le_bytes());
    hb.extend_from_slice(&0x0002_0046u32.to_le_bytes());
    hb.extend_from_slice(&120u32.to_le_bytes());
    hb.extend_from_slice(&0xABCDu32.to_le_bytes());
    hb.extend_from_slice(&0u32.to_le_bytes());
    let header = TableHeader::parse(&hb).unwrap();
    assert_eq!(header.signature, 0x5453595320494249);
    assert_eq!((header.revision, header.size, header.crc32), (0x0002_0046, 120, 0xABCD));
    assert!(TableHeader::parse(&hb[..23]).is_none());

    let consoles = Consoles {
        console_in_handle: Handle::from_address(1),
        console_in: SimpleTextInput::from_interface(0x11),
        console_out_handle: Handle::from_address(2),
        console_out: SimpleTextOutput::from_interface(0x22),
        standard_error_handle: Handle::from_address(3),
        standard_error: SimpleTextOutput::from_interface(0x33),
    };
    let entry = ConfigEntry { guid: Guid(1, 2, 3, 4, 5, 6, 7, 8, 9, 10, 11), ptr: 0x44 };
    let system = System::new(
        7,
        consoles,
        Table::new(header, RuntimeServices::from_address(0x55)),
        Table::new(header, BootServices::from_address(0x66)),
        vec![entry],
    );
    assert_eq!(system.get_stdin().interface(), 0x11);
    assert_eq!(system.get_stdout().interface(), 0x22);
    assert_eq!(system.get_stderr().interface(), 0x33);
    assert_eq!(system.get_boot_services().deref().address(), 0x66);
    assert_eq!(system.get_runtime_services().deref().address(), 0x55);
    assert_eq!(system.get_config_table(), &[entry][..]);
    assert_eq!(system.get_firmware_revision(), 7);

    let ctx = Context::new(Handle::from_address(0x77), Table::new(header, system));
    assert_eq!(ctx.get_current_image().address(), 0x77);
    assert_eq!(ctx.get_boot_services().address(), 0x66);
    assert_eq!(ctx.get_runtime_services().address(), 0x55);
    assert_eq!(ctx.get_system_table().header().signature, 0x5453595320494249);
}

#[test]
fn loaded_image_device() {
    let image = LoadedImage::from_interface(0x900);
    let mut rec = vec![0u8; 64];
    rec[24..32].copy_from_slice(&0xABCDu64.to_le_bytes());
    assert_eq!(image.get_device(&rec), Some(Handle::from_address(0xABCD)));
    assert_eq!(image.get_device(&rec[..31]), None);
}

#[test]
fn priority_levels_and_timer_types() {
    assert_eq!(Tpl::Application.level(), 4);
    assert_eq!(Tpl::Callback.level(), 8);
    assert_eq!(Tpl::Notify.level(), 16);
    assert_eq!(Tpl::HighLevel.level(), 31);
    assert_eq!(TimerType::Cancel.code(), 0);
    assert_eq!(TimerType::Periodic.code(), 1);
    assert_eq!(TimerType::Relative.code(), 2);
}
