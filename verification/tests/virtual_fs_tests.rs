use warp_terminal::virtual_fs::{FileKind, FsError, VirtualFileSystem, ROOT_INO};

#[test]
fn new_file_system_has_only_the_root() {
    let fs = VirtualFileSystem::new();
    let root = fs.getattr(ROOT_INO).unwrap();
    assert_eq!(root.kind, FileKind::Directory);
    assert_eq!(root.nlink, 2);
    assert_eq!(fs.getattr(2), Err(FsError::NotFound));
    let listing = fs.readdir(ROOT_INO, 0).unwrap();
    let names: Vec<&str> = listing.iter().map(|e| e.name.as_str()).collect();
    assert_eq!(names, vec![".", ".."]);
}

#[test]
fn create_then_lookup_and_read() {
    let mut fs = VirtualFileSystem::new();
    let ino = fs.create_file(ROOT_INO, "test_file.txt", b"Hello VFS!".to_vec()).unwrap();
    assert_eq!(ino, 2);
    let attr = fs.lookup(ROOT_INO, "test_file.txt").unwrap();
    assert_eq!(attr.ino, ino);
    assert_eq!(attr.kind, FileKind::RegularFile);
    assert_eq!(attr.size, 10);
    assert_eq!(attr.blocks, 1);
    assert_eq!(fs.read(ino, 0, 100).unwrap(), b"Hello VFS!".to_vec());
    assert_eq!(fs.read(ino, 6, 3).unwrap(), b"VFS".to_vec());
    assert_eq!(fs.read(ino, 50, 3).unwrap(), Vec::<u8>::new());
    assert_eq!(fs.read(ino, -1, 3).unwrap(), Vec::<u8>::new());
    assert_eq!(fs.read(ino, i64::MIN, u32::MAX).unwrap(), Vec::<u8>::new());
    assert_eq!(fs.read(ino, i64::MAX, u32::MAX).unwrap(), Vec::<u8>::new());
    assert_eq!(fs.read(ino, 8, u32::MAX).unwrap(), b"S!".to_vec());
    let root = fs.getattr(ROOT_INO).unwrap();
    assert_eq!(root.size, 1024);
}

#[test]
fn create_refuses_duplicates_and_non_directories() {
    let mut fs = VirtualFileSystem::new();
    let f = fs.create_file(ROOT_INO, "a", Vec::new()).unwrap();
    assert_eq!(fs.create_file(ROOT_INO, "a", Vec::new()), Err(FsError::FileExists));
    assert_eq!(fs.create_file(f, "b", Vec::new()), Err(FsError::ParentNotDirectory));
    assert_eq!(fs.create_directory(ROOT_INO, "a"), Err(FsError::DirectoryExists));
    assert_eq!(FsError::FileExists.message(), "File already exists");
    assert_eq!(FsError::ParentNotDirectory.message(), "Parent not a directory");
}

#[test]
fn write_then_read_gives_back_the_data() {
    let mut fs = VirtualFileSystem::new();
    let ino = fs.create_file(ROOT_INO, "f", b"abc".to_vec()).unwrap();
    assert_eq!(fs.write(ino, 5, b"xyz"), Ok(3));
    assert_eq!(fs.read(ino, 0, 100).unwrap(), b"abc\0\0xyz".to_vec());
    assert_eq!(fs.read(ino, 5, 3).unwrap(), b"xyz".to_vec());
    assert_eq!(fs.write(ino, 1, b"Z"), Ok(1));
    assert_eq!(fs.read(ino, 0, 100).unwrap(), b"aZc\0\0xyz".to_vec());
    assert_eq!(fs.getattr(ino).unwrap().size, 8);
    assert_eq!(fs.write(ROOT_INO, 0, b"no"), Err(FsError::NotFound));
}

#[test]
fn mkdir_then_rmdir() {
    let mut fs = VirtualFileSystem::new();
    let d = fs.mkdir(ROOT_INO, "test_dir").unwrap();
    assert_eq!(d.kind, FileKind::Directory);
    assert_eq!(fs.getattr(ROOT_INO).unwrap().nlink, 3);
    let nested = fs.create_file(d.ino, "nested.txt", b"Nested content".to_vec()).unwrap();
    assert_eq!(fs.rmdir(ROOT_INO, "test_dir"), Err(FsError::NotEmpty));
    assert_eq!(fs.unlink(d.ino, "nested.txt"), Ok(()));
    assert_eq!(fs.getattr(nested), Err(FsError::NotFound));
    assert_eq!(fs.rmdir(ROOT_INO, "test_dir"), Ok(()));
    assert_eq!(fs.lookup(ROOT_INO, "test_dir"), Err(FsError::NotFound));
    assert_eq!(fs.getattr(ROOT_INO).unwrap().nlink, 2);
    assert_eq!(fs.rmdir(ROOT_INO, "test_dir"), Err(FsError::NotFound));
}

#[test]
fn unlink_needs_a_file() {
    let mut fs = VirtualFileSystem::new();
    fs.mkdir(ROOT_INO, "d").unwrap();
    assert_eq!(fs.unlink(ROOT_INO, "d"), Err(FsError::NotFound));
    assert_eq!(fs.unlink(ROOT_INO, "missing"), Err(FsError::NotFound));
}

#[test]
fn readdir_lists_entries_with_offsets() {
    let mut fs = VirtualFileSystem::new();
    fs.create_file(ROOT_INO, "test_file.txt", Vec::new()).unwrap();
    let d = fs.mkdir(ROOT_INO, "test_dir").unwrap();
    let all = fs.readdir(ROOT_INO, 0).unwrap();
    let names: Vec<&str> = all.iter().map(|e| e.name.as_str()).collect();
    assert_eq!(names, vec![".", "..", "test_file.txt", "test_dir"]);
    let offsets: Vec<i64> = all.iter().map(|e| e.next_offset).collect();
    assert_eq!(offsets, vec![1, 2, 3, 4]);
    let rest = fs.readdir(ROOT_INO, 2).unwrap();
    assert_eq!(rest.len(), 2);
    assert_eq!(rest[0].name, "test_file.txt");
    assert_eq!(rest[0].next_offset, 3);
    let inner = fs.readdir(d.ino, 0).unwrap();
    assert_eq!(inner[1].ino, ROOT_INO);
    assert!(fs.readdir(999, 0).is_err());
}

#[test]
fn rename_moves_an_entry() {
    let mut fs = VirtualFileSystem::new();
    let f = fs.create_file(ROOT_INO, "a.txt", b"x".to_vec()).unwrap();
    let d = fs.mkdir(ROOT_INO, "dir").unwrap();
    assert_eq!(fs.rename(ROOT_INO, "a.txt", d.ino, "b.txt"), Ok(()));
    assert_eq!(fs.lookup(ROOT_INO, "a.txt"), Err(FsError::NotFound));
    assert_eq!(fs.lookup(d.ino, "b.txt").unwrap().ino, f);
    assert_eq!(fs.read(f, 0, 10).unwrap(), b"x".to_vec());
    assert_eq!(fs.rename(ROOT_INO, "missing", d.ino, "c"), Err(FsError::NotFound));
    fs.create_file(ROOT_INO, "c", Vec::new()).unwrap();
    assert_eq!(fs.rename(ROOT_INO, "c", d.ino, "b.txt"), Err(FsError::Io));
    let sub = fs.mkdir(ROOT_INO, "sub").unwrap();
    assert_eq!(fs.getattr(ROOT_INO).unwrap().nlink, 4);
    assert_eq!(fs.rename(ROOT_INO, "sub", d.ino, "sub"), Ok(()));
    assert_eq!(fs.getattr(ROOT_INO).unwrap().nlink, 3);
    assert_eq!(fs.getattr(d.ino).unwrap().nlink, 3);
    assert_eq!(fs.lookup(d.ino, "sub").unwrap().ino, sub.ino);
}

#[test]
fn create_and_mkdir_report_io_errors() {
    let mut fs = VirtualFileSystem::new();
    let a = fs.create(ROOT_INO, "x").unwrap();
    assert_eq!(a.size, 0);
    assert_eq!(fs.create(ROOT_INO, "x"), Err(FsError::Io));
    assert_eq!(fs.mkdir(ROOT_INO, "x"), Err(FsError::Io));
    assert!(fs.room_under(ROOT_INO));
    assert!(fs.may_lose_subdir(ROOT_INO));
}

#[test]
fn file_operations_in_sequence() {
    let mut fs = VirtualFileSystem::new();
    let file = fs.create(ROOT_INO, "test_file.txt").unwrap().ino;
    assert_eq!(fs.write(file, 0, b"Hello VFS!"), Ok(10));
    assert_eq!(fs.read(file, 0, 4096).unwrap(), b"Hello VFS!".to_vec());
    assert_eq!(fs.write(file, 0, b"Updated content."), Ok(16));
    assert_eq!(fs.read(file, 0, 4096).unwrap(), b"Updated content.".to_vec());
    let dir = fs.mkdir(ROOT_INO, "test_dir").unwrap();
    assert_eq!(dir.kind, FileKind::Directory);
    let nested = fs.create(dir.ino, "nested.txt").unwrap().ino;
    assert_eq!(fs.write(nested, 0, b"Nested content"), Ok(14));
    let names: Vec<String> = fs.readdir(ROOT_INO, 0).unwrap().into_iter().map(|e| e.name).collect();
    assert!(names.contains(&"test_file.txt".to_string()));
    assert!(names.contains(&"test_dir".to_string()));
    assert_eq!(fs.unlink(ROOT_INO, "test_file.txt"), Ok(()));
    assert_eq!(fs.lookup(ROOT_INO, "test_file.txt"), Err(FsError::NotFound));
    assert_eq!(fs.rmdir(ROOT_INO, "test_dir"), Err(FsError::NotEmpty));
    assert_eq!(fs.unlink(dir.ino, "nested.txt"), Ok(()));
    assert_eq!(fs.rmdir(ROOT_INO, "test_dir"), Ok(()));
    assert_eq!(fs.lookup(ROOT_INO, "test_dir"), Err(FsError::NotFound));
}
