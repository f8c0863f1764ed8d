//! An in-memory file system: directories and files addressed by inode numbers, with
//! the operations a FUSE driver asks of it (lookup, attributes, read, write, listing,
//! creating, removing and renaming entries).
//!
//! Instants are milliseconds since the Unix epoch. Mounting, and answering the kernel,
//! are left to the caller.
use vstd::prelude::*;
use crate::clock::now_millis;
use crate::table::Table;
use crate::text::owned;
use std::collections::HashMap;

verus! {

broadcast use vstd::std_specs::hash::group_hash_axioms;

/// Inode number of the root directory.
pub const ROOT_INO: u64 = 1;
/// Block size reported for every node.
pub const BLOCK_SIZE: u32 = 512;
/// Permissions of new files (`0o644`).
pub const DEFAULT_FILE_PERM: u16 = 0o644u16;
/// Permissions of new directories (`0o755`).
pub const DEFAULT_DIR_PERM: u16 = 0o755u16;
pub const DEFAULT_UID: u32 = 501;
pub const DEFAULT_GID: u32 = 20;

/// Kind of a node.
#[derive(Debug, Clone, Copy, PartialEq, Eq, Structural)]
pub enum FileKind {
    Directory,
    RegularFile,
}

/// Attributes of a node, as a FUSE driver reports them.
#[derive(Debug, Clone, Copy, PartialEq, Eq, Structural)]
pub struct FileAttr {
    pub ino: u64,
    pub size: u64,
    pub blocks: u64,
    pub atime: i64,
    pub mtime: i64,
    pub ctime: i64,
    pub crtime: i64,
    pub kind: FileKind,
    pub perm: u16,
    pub nlink: u32,
    pub uid: u32,
    pub gid: u32,
    pub rdev: u32,
    pub blksize: u32,
    pub flags: u32,
}

/// A file: its name and bytes.
#[derive(Debug)]
pub struct File {
    pub ino: u64,
    pub name: String,
    pub content: Vec<u8>,
    pub attr: FileAttr,
}

/// A directory: its name and its entries, by name.
#[derive(Debug)]
pub struct Directory {
    pub ino: u64,
    pub name: String,
    pub children: Table<String, u64>,
    pub attr: FileAttr,
}

/// A node of the file system.
#[derive(Debug)]
pub enum FsNode {
    File(File),
    Directory(Directory),
}

/// Why an operation was refused, with the error number it is answered with.
#[derive(Debug, Clone, Copy, PartialEq, Eq, Structural)]
pub enum FsError {
    /// No such entry (`ENOENT`).
    NotFound,
    /// The operation could not be carried out (`EIO`).
    Io,
    /// The directory is not empty (`EINVAL`).
    NotEmpty,
    /// A file of that name exists already.
    FileExists,
    /// A directory of that name exists already.
    DirectoryExists,
    /// The parent is missing or is not a directory.
    ParentNotDirectory,
}

impl FsError {
    /// The error's message.
    pub fn message(&self) -> (r: String)
        ensures
            r@ == (match *self {
                FsError::NotFound => "No such file or directory"@,
                FsError::Io => "Input/output error"@,
                FsError::NotEmpty => "Directory not empty"@,
                FsError::FileExists => "File already exists"@,
                FsError::DirectoryExists => "Directory already exists"@,
                FsError::ParentNotDirectory => "Parent not a directory"@,
            }),
    {
        match self {
            FsError::NotFound => owned("No such file or directory"),
            FsError::Io => owned("Input/output error"),
            FsError::NotEmpty => owned("Directory not empty"),
            FsError::FileExists => owned("File already exists"),
            FsError::DirectoryExists => owned("Directory already exists"),
            FsError::ParentNotDirectory => owned("Parent not a directory"),
        }
    }
}

/// The attributes of a node.
pub open spec fn attr_of(n: FsNode) -> FileAttr {
    match n {
        FsNode::File(f) => f.attr,
        FsNode::Directory(d) => d.attr,
    }
}

/// The entries of a directory node (none for a file).
pub open spec fn entries_of(n: FsNode) -> Map<Seq<char>, u64> {
    match n {
        FsNode::File(_) => Map::empty(),
        FsNode::Directory(d) => d.children.view(),
    }
}

impl FsNode {
    /// The node's attributes.
    pub fn attr(&self) -> (a: FileAttr)
        ensures
            a == attr_of(*self),
    {
        match self {
            FsNode::File(f) => f.attr,
            FsNode::Directory(d) => d.attr,
        }
    }
}

/// Blocks of `BLOCK_SIZE` bytes needed for `size` bytes.
pub open spec fn blocks_for(size: u64) -> u64 {
    ((size + 511) / 512) as u64
}

fn blocks_of(size: u64) -> (b: u64)
    ensures
        b == blocks_for(size),
{
    let q = size / 512;
    let b = if size % 512 != 0 { q + 1 } else { q };
    assert(b == (size + 511) / 512) by (nonlinear_arith)
        requires
            q == size / 512,
            size % 512 != 0 ==> b == q + 1,
            size % 512 == 0 ==> b == q,
    ;
    b
}

/// The bytes of a read: from `offset`, at most `size` of them, within the content.
pub open spec fn read_range(content: Seq<u8>, offset: int, size: int) -> Seq<u8> {
    if 0 <= offset < content.len() {
        content.subrange(offset, if offset + size < content.len() { offset + size } else { content.len() as int })
    } else {
        Seq::empty()
    }
}

/// The content after writing `data` at `offset`: the old content, padded with zero
/// bytes up to the end of the write where it was shorter, with `data` in place.
pub open spec fn written(content: Seq<u8>, offset: int, data: Seq<u8>) -> Seq<u8> {
    let end = offset + data.len();
    let len = if end > content.len() { end } else { content.len() as int };
    Seq::new(
        len as nat,
        |i: int|
            if offset <= i < end {
                data[i - offset]
            } else if i < content.len() {
                content[i]
            } else {
                0u8
            },
    )
}

/// Reading back the range just written gives the written bytes.
pub proof fn law_read_after_write(content: Seq<u8>, offset: int, data: Seq<u8>)
    requires
        0 <= offset,
    ensures
        read_range(written(content, offset, data), offset, data.len() as int) == data,
{
    let w = written(content, offset, data);
    assert(read_range(w, offset, data.len() as int) =~= data);
}

/// Writing leaves the bytes outside the written range as they were.
pub proof fn law_write_keeps_rest(content: Seq<u8>, offset: int, data: Seq<u8>, i: int)
    requires
        0 <= offset,
        0 <= i < content.len(),
        !(offset <= i < offset + data.len()),
    ensures
        written(content, offset, data)[i] == content[i],
{
}

/// One entry of a directory listing: the node, the offset of the next entry, its kind
/// and its name.
#[derive(Debug)]
pub struct DirEntry {
    pub ino: u64,
    pub next_offset: i64,
    pub kind: FileKind,
    pub name: String,
}

/// A directory entry as values.
pub struct ListedEntry {
    pub ino: u64,
    pub kind: FileKind,
    pub name: Seq<char>,
}

/// The in-memory file system.
pub struct VirtualFileSystem {
    next_ino: u64,
    nodes: HashMap<u64, FsNode>,
    parent_map: HashMap<u64, u64>,
}

impl VirtualFileSystem {
    /// The nodes by inode number.
    pub closed spec fn nodes(self) -> Map<u64, FsNode> {
        self.nodes@
    }

    /// The parent of each node but the root.
    pub closed spec fn parents(self) -> Map<u64, u64> {
        self.parent_map@
    }

    /// The inode number the next new node gets.
    pub closed spec fn next_ino(self) -> u64 {
        self.next_ino
    }

    /// Well-formedness: every node's inode number is below the next one handed out, so
    /// a new node never replaces an existing one. `new` establishes it and every
    /// operation keeps it.
    pub closed spec fn wf(self) -> bool {
        forall|k: u64| #[trigger] self.nodes@.contains_key(k) ==> k < self.next_ino
    }

    /// Whether `ino` is a directory.
    pub open spec fn is_dir(self, ino: u64) -> bool {
        self.nodes().contains_key(ino) && self.nodes()[ino] is Directory
    }

    /// Whether `ino` is a file.
    pub open spec fn is_file(self, ino: u64) -> bool {
        self.nodes().contains_key(ino) && self.nodes()[ino] is File
    }

    /// What looking up `name` in `parent` finds: the attributes of the entry's node.
    pub open spec fn lookup_spec(self, parent: u64, name: Seq<char>) -> Option<FileAttr> {
        if self.is_dir(parent) && entries_of(self.nodes()[parent]).contains_key(name)
            && self.nodes().contains_key(entries_of(self.nodes()[parent])[name]) {
            Some(attr_of(self.nodes()[entries_of(self.nodes()[parent])[name]]))
        } else {
            None
        }
    }

    /// The content of file `ino`.
    pub open spec fn content_of(self, ino: u64) -> Seq<u8> {
        match self.nodes()[ino] {
            FsNode::File(f) => f.content@,
            FsNode::Directory(_) => Seq::empty(),
        }
    }

    /// There is room for one more node under `parent`: an inode number is left, and the
    /// parent directory's entry count and link count can grow by one.
    pub open spec fn has_room_under(self, parent: u64) -> bool {
        &&& self.next_ino() < u64::MAX
        &&& self.is_dir(parent) ==> entries_of(self.nodes()[parent]).dom().len() < 0x10_0000_0000
            && attr_of(self.nodes()[parent]).nlink < u32::MAX
    }

    /// A directory may lose a subdirectory: its link count is positive.
    pub open spec fn can_lose_subdir(self, parent: u64) -> bool {
        self.is_dir(parent) ==> attr_of(self.nodes()[parent]).nlink >= 1
    }

    /// A fresh file system: the root directory `/` alone, with inode 1.
    pub fn new() -> (fs: Self)
        ensures
            fs.wf(),
            fs.nodes().dom() == set![ROOT_INO],
            fs.is_dir(ROOT_INO),
            entries_of(fs.nodes()[ROOT_INO]) == Map::<Seq<char>, u64>::empty(),
            attr_of(fs.nodes()[ROOT_INO]).kind == FileKind::Directory,
            attr_of(fs.nodes()[ROOT_INO]).nlink == 2,
            attr_of(fs.nodes()[ROOT_INO]).perm == DEFAULT_DIR_PERM,
            fs.parents() == Map::<u64, u64>::empty(),
            fs.next_ino() == ROOT_INO + 1,
    {
        let now = now_millis();
        let root_attr = FileAttr {
            ino: ROOT_INO,
            size: 0,
            blocks: 0,
            atime: now,
            mtime: now,
            ctime: now,
            crtime: now,
            kind: FileKind::Directory,
            perm: DEFAULT_DIR_PERM,
            nlink: 2,
            uid: DEFAULT_UID,
            gid: DEFAULT_GID,
            rdev: 0,
            flags: 0,
            blksize: BLOCK_SIZE,
        };
        let mut nodes: HashMap<u64, FsNode> = HashMap::new();
        nodes.insert(
            ROOT_INO,
            FsNode::Directory(Directory { ino: ROOT_INO, name: owned("/"), children: Table::new(), attr: root_attr }),
        );
        assert(nodes@.dom() =~= set![ROOT_INO]);
        VirtualFileSystem { next_ino: ROOT_INO + 1, nodes, parent_map: HashMap::new() }
    }

    /// Whether there is room for one more node under `parent`.
    pub fn room_under(&self, parent: u64) -> (r: bool)
        ensures
            r == self.has_room_under(parent),
    {
        if self.next_ino == u64::MAX {
            return false;
        }
        match self.nodes.get(&parent) {
            Some(FsNode::Directory(d)) => (d.children.len() as u64) < 0x10_0000_0000u64 && d.attr.nlink < u32::MAX,
            _ => true,
        }
    }

    /// Whether `parent` may lose a subdirectory.
    pub fn may_lose_subdir(&self, parent: u64) -> (r: bool)
        ensures
            r == self.can_lose_subdir(parent),
    {
        match self.nodes.get(&parent) {
            Some(FsNode::Directory(d)) => d.attr.nlink >= 1,
            _ => true,
        }
    }

    fn get_new_ino(&mut self) -> (ino: u64)
        requires
            old(self).next_ino < u64::MAX,
        ensures
            ino == old(self).next_ino,
            final(self).next_ino == old(self).next_ino + 1,
            final(self).nodes == old(self).nodes,
            final(self).parent_map == old(self).parent_map,
    {
        let ino = self.next_ino;
        self.next_ino = self.next_ino + 1;
        ino
    }

    /// Takes the directory `ino` out of the table, if it is one.
    fn take_dir(&mut self, ino: u64) -> (r: Option<Directory>)
        ensures
            r is Some == old(self).is_dir(ino),
            r matches Some(d) ==> FsNode::Directory(d) == old(self).nodes()[ino]
                && final(self).nodes() == old(self).nodes().remove(ino),
            r is None ==> final(self).nodes() == old(self).nodes(),
            final(self).parents() == old(self).parents(),
            final(self).next_ino() == old(self).next_ino(),
    {
        match self.nodes.get(&ino) {
            Some(FsNode::Directory(_)) => {},
            _ => {
                return None;
            },
        }
        match self.nodes.remove(&ino) {
            Some(FsNode::Directory(d)) => Some(d),
            _ => None,
        }
    }

    /// Adds a file named `name` holding `content` to the directory `parent`, with a new
    /// inode number (taken even when the file is refused). Refused when `parent` is not a
    /// directory, or already has an entry of that name.
    pub fn create_file(&mut self, parent_ino: u64, name: &str, content: Vec<u8>) -> (r: Result<u64, FsError>)
        requires
            old(self).wf(),
            old(self).has_room_under(parent_ino),
        ensures
            final(self).wf(),
            final(self).next_ino() == old(self).next_ino() + 1,
            !old(self).is_dir(parent_ino) ==> r == Err::<u64, FsError>(FsError::ParentNotDirectory),
            old(self).is_dir(parent_ino) && entries_of(old(self).nodes()[parent_ino]).contains_key(name@)
                ==> r == Err::<u64, FsError>(FsError::FileExists),
            r is Err ==> final(self).nodes() == old(self).nodes() && final(self).parents() == old(self).parents(),
            r is Ok <==> old(self).is_dir(parent_ino) && !entries_of(old(self).nodes()[parent_ino]).contains_key(name@),
            r matches Ok(ino) ==> {
                &&& ino == old(self).next_ino()
                &&& !old(self).nodes().contains_key(ino)
                &&& final(self).is_file(ino)
                &&& final(self).content_of(ino) == content@
                &&& final(self).lookup_spec(parent_ino, name@) == Some(attr_of(final(self).nodes()[ino]))
                &&& attr_of(final(self).nodes()[ino]).ino == ino
                &&& attr_of(final(self).nodes()[ino]).kind == FileKind::RegularFile
                &&& attr_of(final(self).nodes()[ino]).size == content@.len()
                &&& attr_of(final(self).nodes()[ino]).blocks == blocks_for(content@.len() as u64)
                &&& attr_of(final(self).nodes()[ino]).perm == DEFAULT_FILE_PERM
                &&& attr_of(final(self).nodes()[ino]).nlink == 1
                &&& final(self).is_dir(parent_ino)
                &&& entries_of(final(self).nodes()[parent_ino]) == entries_of(old(self).nodes()[parent_ino]).insert(name@, ino)
                &&& attr_of(final(self).nodes()[parent_ino]).size == entries_of(final(self).nodes()[parent_ino]).dom().len() * 1024
                &&& Self::node_name(final(self).nodes()[ino]) == name@
                &&& {
                    let a = attr_of(final(self).nodes()[ino]);
                    let t = a.atime;
                    &&& a == (FileAttr { ino, size: a.size, blocks: a.blocks, atime: t, mtime: t, ctime: t, crtime: t,
                        kind: FileKind::RegularFile, perm: DEFAULT_FILE_PERM, nlink: 1, uid: DEFAULT_UID, gid: DEFAULT_GID,
                        rdev: 0, blksize: BLOCK_SIZE, flags: 0 })
                    &&& attr_of(final(self).nodes()[parent_ino]) == (FileAttr { mtime: t, ctime: t,
                        size: attr_of(final(self).nodes()[parent_ino]).size, ..attr_of(old(self).nodes()[parent_ino]) })
                }
                &&& final(self).parents() == old(self).parents().insert(ino, parent_ino)
                &&& forall|k: u64| k != ino && k != parent_ino ==> (#[trigger] final(self).nodes().contains_key(k)
                    == old(self).nodes().contains_key(k)) && (old(self).nodes().contains_key(k)
                    ==> final(self).nodes()[k] == old(self).nodes()[k])
            },
    {
        let new_ino = self.get_new_ino();
        let size = content.len() as u64;
        let now = now_millis();
        let file_attr = FileAttr {
            ino: new_ino,
            size,
            blocks: blocks_of(size),
            atime: now,
            mtime: now,
            ctime: now,
            crtime: now,
            kind: FileKind::RegularFile,
            perm: DEFAULT_FILE_PERM,
            nlink: 1,
            uid: DEFAULT_UID,
            gid: DEFAULT_GID,
            rdev: 0,
            flags: 0,
            blksize: BLOCK_SIZE,
        };
        let file_node = File { ino: new_ino, name: owned(name), content, attr: file_attr };
        let key = owned(name);
        match self.nodes.get(&parent_ino) {
            Some(FsNode::Directory(d)) => {
                if d.children.contains_key(&key) {
                    return Err(FsError::FileExists);
                }
            },
            _ => {
                return Err(FsError::ParentNotDirectory);
            },
        }
        assert(!old(self).nodes().contains_key(new_ino));
        let mut dir = self.take_dir(parent_ino).unwrap();
        proof {
            use_type_invariant(&dir.children);
            dir.children.lemma_wf();
        }
        dir.children.insert(key, new_ino);
        proof {
            use_type_invariant(&dir.children);
            dir.children.lemma_wf();
        }
        dir.attr.mtime = now;
        dir.attr.ctime = now;
        let n = dir.children.len();
        dir.attr.size = n as u64 * 1024;
        self.nodes.insert(parent_ino, FsNode::Directory(dir));
        self.nodes.insert(new_ino, FsNode::File(file_node));
        self.parent_map.insert(new_ino, parent_ino);
        Ok(new_ino)
    }

    /// Adds an empty directory named `name` to the directory `parent`, with a new inode
    /// number (taken even when it is refused); the parent gains a link. Refused when
    /// `parent` is not a directory, or already has an entry of that name.
    pub fn create_directory(&mut self, parent_ino: u64, name: &str) -> (r: Result<u64, FsError>)
        requires
            old(self).wf(),
            old(self).has_room_under(parent_ino),
        ensures
            final(self).wf(),
            final(self).next_ino() == old(self).next_ino() + 1,
            !old(self).is_dir(parent_ino) ==> r == Err::<u64, FsError>(FsError::ParentNotDirectory),
            old(self).is_dir(parent_ino) && entries_of(old(self).nodes()[parent_ino]).contains_key(name@)
                ==> r == Err::<u64, FsError>(FsError::DirectoryExists),
            r is Err ==> final(self).nodes() == old(self).nodes() && final(self).parents() == old(self).parents(),
            r is Ok <==> old(self).is_dir(parent_ino) && !entries_of(old(self).nodes()[parent_ino]).contains_key(name@),
            r matches Ok(ino) ==> {
                &&& ino == old(self).next_ino()
                &&& !old(self).nodes().contains_key(ino)
                &&& final(self).is_dir(ino)
                &&& entries_of(final(self).nodes()[ino]) == Map::<Seq<char>, u64>::empty()
                &&& final(self).lookup_spec(parent_ino, name@) == Some(attr_of(final(self).nodes()[ino]))
                &&& attr_of(final(self).nodes()[ino]).ino == ino
                &&& attr_of(final(self).nodes()[ino]).kind == FileKind::Directory
                &&& attr_of(final(self).nodes()[ino]).nlink == 2
                &&& attr_of(final(self).nodes()[ino]).perm == DEFAULT_DIR_PERM
                &&& final(self).is_dir(parent_ino)
                &&& entries_of(final(self).nodes()[parent_ino]) == entries_of(old(self).nodes()[parent_ino]).insert(name@, ino)
                &&& attr_of(final(self).nodes()[parent_ino]).nlink == attr_of(old(self).nodes()[parent_ino]).nlink + 1
                &&& Self::node_name(final(self).nodes()[ino]) == name@
                &&& {
                    let a = attr_of(final(self).nodes()[ino]);
                    let t = a.atime;
                    &&& a == (FileAttr { ino, size: 0, blocks: 0, atime: t, mtime: t, ctime: t, crtime: t,
                        kind: FileKind::Directory, perm: DEFAULT_DIR_PERM, nlink: 2, uid: DEFAULT_UID, gid: DEFAULT_GID,
                        rdev: 0, blksize: BLOCK_SIZE, flags: 0 })
                    &&& attr_of(final(self).nodes()[parent_ino]) == (FileAttr { mtime: t, ctime: t,
                        nlink: attr_of(final(self).nodes()[parent_ino]).nlink, ..attr_of(old(self).nodes()[parent_ino]) })
                }
                &&& final(self).parents() == old(self).parents().insert(ino, parent_ino)
                &&& forall|k: u64| k != ino && k != parent_ino ==> (#[trigger] final(self).nodes().contains_key(k)
                    == old(self).nodes().contains_key(k)) && (old(self).nodes().contains_key(k)
                    ==> final(self).nodes()[k] == old(self).nodes()[k])
            },
    {
        let new_ino = self.get_new_ino();
        let now = now_millis();
        let dir_attr = FileAttr {
            ino: new_ino,
            size: 0,
            blocks: 0,
            atime: now,
            mtime: now,
            ctime: now,
            crtime: now,
            kind: FileKind::Directory,
            perm: DEFAULT_DIR_PERM,
            nlink: 2,
            uid: DEFAULT_UID,
            gid: DEFAULT_GID,
            rdev: 0,
            flags: 0,
            blksize: BLOCK_SIZE,
        };
        let dir_node = Directory { ino: new_ino, name: owned(name), children: Table::new(), attr: dir_attr };
        let key = owned(name);
        match self.nodes.get(&parent_ino) {
            Some(FsNode::Directory(d)) => {
                if d.children.contains_key(&key) {
                    return Err(FsError::DirectoryExists);
                }
            },
            _ => {
                return Err(FsError::ParentNotDirectory);
            },
        }
        assert(!old(self).nodes().contains_key(new_ino));
        let mut dir = self.take_dir(parent_ino).unwrap();
        dir.children.insert(key, new_ino);
        dir.attr.mtime = now;
        dir.attr.ctime = now;
        dir.attr.nlink = dir.attr.nlink + 1;
        self.nodes.insert(parent_ino, FsNode::Directory(dir));
        self.nodes.insert(new_ino, FsNode::Directory(dir_node));
        self.parent_map.insert(new_ino, parent_ino);
        Ok(new_ino)
    }

    /// The attributes of node `ino`, if there is one.
    pub fn get_attr_for_ino(&self, ino: u64) -> (r: Option<FileAttr>)
        ensures
            r is Some == self.nodes().contains_key(ino),
            r matches Some(a) ==> a == attr_of(self.nodes()[ino]),
    {
        match self.nodes.get(&ino) {
            Some(n) => Some(n.attr()),
            None => None,
        }
    }

    /// The attributes of the entry `name` of directory `parent`.
    pub fn lookup(&self, parent: u64, name: &str) -> (r: Result<FileAttr, FsError>)
        ensures
            r is Ok == self.lookup_spec(parent, name@) is Some,
            r matches Ok(a) ==> self.lookup_spec(parent, name@) == Some(a),
            r matches Err(e) ==> e == FsError::NotFound,
    {
        let key = owned(name);
        match self.nodes.get(&parent) {
            Some(FsNode::Directory(d)) => match d.children.get(&key) {
                Some(ino) => match self.get_attr_for_ino(*ino) {
                    Some(a) => Ok(a),
                    None => Err(FsError::NotFound),
                },
                None => Err(FsError::NotFound),
            },
            _ => Err(FsError::NotFound),
        }
    }

    /// The attributes of node `ino`.
    pub fn getattr(&self, ino: u64) -> (r: Result<FileAttr, FsError>)
        ensures
            r is Ok == self.nodes().contains_key(ino),
            r matches Ok(a) ==> a == attr_of(self.nodes()[ino]),
            r matches Err(e) ==> e == FsError::NotFound,
    {
        match self.get_attr_for_ino(ino) {
            Some(a) => Ok(a),
            None => Err(FsError::NotFound),
        }
    }

    /// Up to `size` bytes of file `ino` from `offset`: none from an offset before its
    /// start or at or past its end.
    pub fn read(&self, ino: u64, offset: i64, size: u32) -> (r: Result<Vec<u8>, FsError>)
        ensures
            r is Ok == self.is_file(ino),
            r matches Ok(d) ==> d@ == read_range(self.content_of(ino), offset as int, size as int),
            r matches Ok(d) ==> (offset < 0 ==> d@.len() == 0),
            r matches Err(e) ==> e == FsError::NotFound,
    {
        match self.nodes.get(&ino) {
            Some(FsNode::File(f)) => {
                let len = f.content.len();
                let mut out: Vec<u8> = Vec::new();
                if offset >= 0 && (offset as u64) < (len as u64) {
                    let start = offset as usize;
                    let stop = if (size as u64) < ((len - start) as u64) { start + size as usize } else { len };
                    let mut i = start;
                    while i < stop
                        invariant
                            start <= i <= stop,
                            stop <= f.content@.len(),
                            out@ == f.content@.subrange(start as int, i as int),
                        decreases stop - i,
                    {
                        out.push(f.content[i]);
                        assert(f.content@.subrange(start as int, i + 1) =~= f.content@.subrange(start as int, i as int).push(f.content@[i as int]));
                        i = i + 1;
                    }
                }
                assert(out@ =~= read_range(f.content@, offset as int, size as int));
                Ok(out)
            },
            _ => Err(FsError::NotFound),
        }
    }

    /// Writes `data` into file `ino` at `offset`, growing it with zero bytes where the
    /// write ends past its end; returns the number of bytes written (as a 32-bit count).
    pub fn write(&mut self, ino: u64, offset: i64, data: &[u8]) -> (r: Result<u32, FsError>)
        requires
            old(self).wf(),
            0 <= offset,
            offset + data@.len() <= usize::MAX,
        ensures
            final(self).wf(),
            r is Ok == old(self).is_file(ino),
            r matches Err(e) ==> e == FsError::NotFound && final(self).nodes() == old(self).nodes(),
            r matches Ok(n) ==> {
                &&& n == data@.len() as u32
                &&& final(self).is_file(ino)
                &&& final(self).content_of(ino) == written(old(self).content_of(ino), offset as int, data@)
                &&& attr_of(final(self).nodes()[ino]).size == final(self).content_of(ino).len()
                &&& attr_of(final(self).nodes()[ino]).blocks == blocks_for(final(self).content_of(ino).len() as u64)
                &&& {
                    let a = attr_of(final(self).nodes()[ino]);
                    a == (FileAttr { size: a.size, blocks: a.blocks, mtime: a.mtime, ctime: a.mtime, ..attr_of(old(self).nodes()[ino]) })
                }
                &&& Self::node_name(final(self).nodes()[ino]) == Self::node_name(old(self).nodes()[ino])
                &&& forall|k: u64| k != ino ==> (#[trigger] final(self).nodes().contains_key(k)
                    == old(self).nodes().contains_key(k)) && (old(self).nodes().contains_key(k)
                    ==> final(self).nodes()[k] == old(self).nodes()[k])
            },
            final(self).parents() == old(self).parents(),
            final(self).next_ino() == old(self).next_ino(),
    {
        match self.nodes.get(&ino) {
            Some(FsNode::File(_)) => {},
            _ => {
                return Err(FsError::NotFound);
            },
        }
        let mut f = match self.nodes.remove(&ino) {
            Some(FsNode::File(f)) => f,
            _ => {
                return Err(FsError::NotFound);
            },
        };
        let start = offset as usize;
        let end = start + data.len();
        let mut c = Vec::new();
        std::mem::swap(&mut c, &mut f.content);
        let ghost old_c = c@;
        while c.len() < end
            invariant
                old_c.len() <= c@.len() <= (if end > old_c.len() { end as int } else { old_c.len() as int }),
                forall|i: int| 0 <= i < old_c.len() ==> c@[i] == old_c[i],
                forall|i: int| old_c.len() <= i < c@.len() ==> c@[i] == 0u8,
            decreases end - c.len(),
        {
            c.push(0u8);
        }
        let mut j: usize = 0;
        while j < data.len()
            invariant
                end == start + data@.len(),
                c@.len() == (if end > old_c.len() { end as int } else { old_c.len() as int }),
                j <= data@.len(),
                forall|i: int| start <= i < start + j ==> c@[i] == data@[i - start],
                forall|i: int| 0 <= i < c@.len() && !(start <= i < start + j) ==> c@[i] == (if i < old_c.len() {
                    old_c[i]
                } else {
                    0u8
                }),
            decreases data.len() - j,
        {
            c.set(start + j, data[j]);
            j = j + 1;
        }
        assert(c@ =~= written(old_c, offset as int, data@));
        f.content = c;
        let size = f.content.len() as u64;
        f.attr.size = size;
        f.attr.blocks = blocks_of(size);
        let now = now_millis();
        f.attr.mtime = now;
        f.attr.ctime = now;
        self.nodes.insert(ino, FsNode::File(f));
        Ok(data.len() as u32)
    }

    /// The listing of directory `ino` from position `offset`: `.` (the directory),
    /// `..` (its parent, or the root for a directory without one), then its entries whose
    /// node exists, in stored order; each with the position of the next one.
    pub fn readdir(&self, ino: u64, offset: i64) -> (r: Result<Vec<DirEntry>, FsError>)
        requires
            0 <= offset,
            offset <= usize::MAX,
            self.is_dir(ino) ==> entries_of(self.nodes()[ino]).dom().len() + 3 < i64::MAX,
        ensures
            r is Ok == self.is_dir(ino),
            r matches Err(e) ==> e == FsError::NotFound,
            r matches Ok(v) ==> {
                let all = self.listing(ino);
                &&& v@.len() == (if offset < all.len() { all.len() - offset } else { 0 })
                &&& forall|i: int| 0 <= i < v@.len() ==> {
                    &&& (#[trigger] v@[i]).ino == all[offset + i].ino
                    &&& v@[i].kind == all[offset + i].kind
                    &&& v@[i].name@ == all[offset + i].name
                    &&& v@[i].next_offset == offset + i + 1
                }
            },
    {
        let d = match self.nodes.get(&ino) {
            Some(FsNode::Directory(d)) => d,
            _ => {
                return Err(FsError::NotFound);
            },
        };
        let up = match self.parent_map.get(&ino) {
            Some(p) => *p,
            None => ROOT_INO,
        };
        let mut all: Vec<DirEntry> = Vec::new();
        all.push(DirEntry { ino, next_offset: 0, kind: FileKind::Directory, name: owned(".") });
        all.push(DirEntry { ino: up, next_offset: 0, kind: FileKind::Directory, name: owned("..") });
        let n = d.children.len();
        let ghost es = d.children.entries();
        proof {
            lemma_listed_len(es, self.nodes());
        }
        let mut i: usize = 0;
        assert(self.listing(ino) == seq![
            ListedEntry { ino, kind: FileKind::Directory, name: "."@ },
            ListedEntry { ino: up, kind: FileKind::Directory, name: ".."@ },
        ] + listed_children(es, self.nodes()));
        while i < n
            invariant
                i <= n,
                n == es.len(),
                es == d.children.entries(),
                all@.len() >= 2,
                listed_of(all@) == seq![
                    ListedEntry { ino, kind: FileKind::Directory, name: "."@ },
                    ListedEntry { ino: up, kind: FileKind::Directory, name: ".."@ },
                ] + listed_children(es.take(i as int), self.nodes()),
            decreases n - i,
        {
            let (name, child) = d.children.entry(i);
            assert(es.take(i + 1).drop_last() =~= es.take(i as int));
            match self.nodes.get(child) {
                Some(node) => {
                    let ghost before = all@;
                    let de = DirEntry { ino: *child, next_offset: 0, kind: node.attr().kind, name: name.clone() };
                    all.push(de);
                    assert(es.take(i + 1).last() == es[i as int]);
                    assert(all@ == before.push(de));
                    assert(listed_of(all@) =~= listed_of(before).push(ListedEntry { ino: *child, kind: attr_of(self.nodes()[*child]).kind, name: name@ }));
                    assert(listed_of(all@) =~= seq![
                        ListedEntry { ino, kind: FileKind::Directory, name: "."@ },
                        ListedEntry { ino: up, kind: FileKind::Directory, name: ".."@ },
                    ] + listed_children(es.take(i + 1), self.nodes()));
                },
                None => {
                    assert(es.take(i + 1).last() == es[i as int]);
                    assert(listed_of(all@) =~= seq![
                        ListedEntry { ino, kind: FileKind::Directory, name: "."@ },
                        ListedEntry { ino: up, kind: FileKind::Directory, name: ".."@ },
                    ] + listed_children(es.take(i + 1), self.nodes()));
                },
            }
            i = i + 1;
        }
        assert(es.take(n as int) =~= es);
        let ghost full = listed_of(all@);
        assert(full == self.listing(ino));
        let start = offset as usize;
        let mut out: Vec<DirEntry> = Vec::new();
        let ghost all_seq = all@;
        let total = all.len();
        let mut pos: usize = 0;
        assert(full.len() <= n + 2) by {
            lemma_listed_len(es, self.nodes());
        }
        for e in it: all.into_iter()
            invariant
                it.seq() == all_seq,
                all_seq.len() == full.len(),
                all_seq.len() == total,
                full.len() <= n + 2,
                n + 3 < i64::MAX,
                start == offset,
                listed_of(all_seq) == full,
                pos == it.index(),
                out@.len() == (if start < pos { pos - start } else { 0 }),
                forall|t: int| 0 <= t < out@.len() ==> {
                    &&& (#[trigger] out@[t]).ino == full[start + t].ino
                    &&& out@[t].kind == full[start + t].kind
                    &&& out@[t].name@ == full[start + t].name
                    &&& out@[t].next_offset == offset + t + 1
                },
        {
            assert(it.index() < it.seq().len());
            assert(listed_of(all_seq)[pos as int] == ListedEntry { ino: e.ino, kind: e.kind, name: e.name@ });
            if pos >= start {
                let next = offset + (pos - start) as i64 + 1;
                out.push(DirEntry { ino: e.ino, next_offset: next, kind: e.kind, name: e.name });
            }
            pos = pos + 1;
        }
        Ok(out)
    }

    /// Makes directory `name` in `parent` and gives its attributes; any refusal is an
    /// I/O error.
    pub fn mkdir(&mut self, parent: u64, name: &str) -> (r: Result<FileAttr, FsError>)
        requires
            old(self).wf(),
            old(self).has_room_under(parent),
        ensures
            final(self).wf(),
            r is Ok <==> old(self).is_dir(parent) && !entries_of(old(self).nodes()[parent]).contains_key(name@),
            r matches Err(e) ==> e == FsError::Io && final(self).nodes() == old(self).nodes(),
            r matches Ok(a) ==> a.ino == old(self).next_ino() && a.kind == FileKind::Directory
                && final(self).lookup_spec(parent, name@) == Some(a),
    {
        match self.create_directory(parent, name) {
            Ok(ino) => match self.get_attr_for_ino(ino) {
                Some(a) => Ok(a),
                None => Err(FsError::Io),
            },
            Err(_) => Err(FsError::Io),
        }
    }

    /// Makes an empty file `name` in `parent` and gives its attributes; any refusal is an
    /// I/O error.
    pub fn create(&mut self, parent: u64, name: &str) -> (r: Result<FileAttr, FsError>)
        requires
            old(self).wf(),
            old(self).has_room_under(parent),
        ensures
            final(self).wf(),
            r is Ok <==> old(self).is_dir(parent) && !entries_of(old(self).nodes()[parent]).contains_key(name@),
            r matches Err(e) ==> e == FsError::Io && final(self).nodes() == old(self).nodes(),
            r matches Ok(a) ==> a.ino == old(self).next_ino() && a.kind == FileKind::RegularFile && a.size == 0
                && final(self).lookup_spec(parent, name@) == Some(a)
                && final(self).content_of(a.ino) == Seq::<u8>::empty(),
    {
        match self.create_file(parent, name, Vec::new()) {
            Ok(ino) => match self.get_attr_for_ino(ino) {
                Some(a) => Ok(a),
                None => Err(FsError::Io),
            },
            Err(_) => Err(FsError::Io),
        }
    }

    /// Removes the empty directory `name` from `parent`, which loses a link. `NotFound`
    /// unless `parent` is a directory whose entry `name` is a directory; `NotEmpty` when
    /// that directory has entries.
    pub fn rmdir(&mut self, parent: u64, name: &str) -> (r: Result<(), FsError>)
        requires
            old(self).wf(),
            old(self).can_lose_subdir(parent),
        ensures
            final(self).wf(),
            ({
                let ok_entry = old(self).is_dir(parent) && entries_of(old(self).nodes()[parent]).contains_key(name@)
                    && old(self).is_dir(entries_of(old(self).nodes()[parent])[name@]);
                let child = entries_of(old(self).nodes()[parent])[name@];
                &&& !ok_entry ==> r == Err::<(), FsError>(FsError::NotFound)
                &&& ok_entry && entries_of(old(self).nodes()[child]).dom().len() > 0
                    ==> r == Err::<(), FsError>(FsError::NotEmpty)
                &&& r is Ok <==> ok_entry && entries_of(old(self).nodes()[child]).dom().len() == 0
                &&& r is Ok ==> {
                    &&& !final(self).nodes().contains_key(child)
                    &&& child != parent ==> {
                        &&& final(self).is_dir(parent)
                        &&& entries_of(final(self).nodes()[parent]) == entries_of(old(self).nodes()[parent]).remove(name@)
                        &&& {
                            let a = attr_of(final(self).nodes()[parent]);
                            a == (FileAttr { mtime: a.mtime, ctime: a.mtime, nlink: (attr_of(old(self).nodes()[parent]).nlink - 1) as u32,
                                ..attr_of(old(self).nodes()[parent]) })
                        }
                        &&& Self::node_name(final(self).nodes()[parent]) == Self::node_name(old(self).nodes()[parent])
                        &&& final(self).lookup_spec(parent, name@) is None
                    }
                    &&& final(self).parents() == old(self).parents().remove(child)
                    &&& forall|k: u64| k != child && k != parent ==> (#[trigger] final(self).nodes().contains_key(k)
                        == old(self).nodes().contains_key(k)) && (old(self).nodes().contains_key(k)
                        ==> final(self).nodes()[k] == old(self).nodes()[k])
                }
            }),
            r is Err ==> final(self).nodes() == old(self).nodes() && final(self).parents() == old(self).parents(),
            final(self).next_ino() == old(self).next_ino(),
    {
        let key = owned(name);
        let child = match self.nodes.get(&parent) {
            Some(FsNode::Directory(d)) => match d.children.get(&key) {
                Some(c) => *c,
                None => {
                    return Err(FsError::NotFound);
                },
            },
            _ => {
                return Err(FsError::NotFound);
            },
        };
        match self.nodes.get(&child) {
            Some(FsNode::Directory(cd)) => {
                if cd.children.len() != 0 {
                    return Err(FsError::NotEmpty);
                }
            },
            _ => {
                return Err(FsError::NotFound);
            },
        }
        let now = now_millis();
        let mut dir = self.take_dir(parent).unwrap();
        dir.children.remove(&key);
        self.nodes.remove(&child);
        self.parent_map.remove(&child);
        dir.attr.mtime = now;
        dir.attr.ctime = now;
        dir.attr.nlink = dir.attr.nlink - 1;
        if child != parent {
            self.nodes.insert(parent, FsNode::Directory(dir));
        }
        Ok(())
    }

    /// Removes the file `name` from `parent`. `NotFound` unless `parent` is a directory
    /// whose entry `name` is a file.
    pub fn unlink(&mut self, parent: u64, name: &str) -> (r: Result<(), FsError>)
        requires
            old(self).wf(),
        ensures
            final(self).wf(),
            ({
                let ok_entry = old(self).is_dir(parent) && entries_of(old(self).nodes()[parent]).contains_key(name@)
                    && old(self).is_file(entries_of(old(self).nodes()[parent])[name@]);
                let child = entries_of(old(self).nodes()[parent])[name@];
                &&& r is Ok <==> ok_entry
                &&& r matches Err(e) ==> e == FsError::NotFound && final(self).nodes() == old(self).nodes()
                    && final(self).parents() == old(self).parents()
                &&& r is Ok ==> {
                    &&& !final(self).nodes().contains_key(child)
                    &&& final(self).is_dir(parent)
                    &&& entries_of(final(self).nodes()[parent]) == entries_of(old(self).nodes()[parent]).remove(name@)
                    &&& {
                        let a = attr_of(final(self).nodes()[parent]);
                        a == (FileAttr { mtime: a.mtime, ctime: a.mtime, ..attr_of(old(self).nodes()[parent]) })
                    }
                    &&& Self::node_name(final(self).nodes()[parent]) == Self::node_name(old(self).nodes()[parent])
                    &&& final(self).lookup_spec(parent, name@) is None
                    &&& final(self).parents() == old(self).parents().remove(child)
                    &&& forall|k: u64| k != child && k != parent ==> (#[trigger] final(self).nodes().contains_key(k)
                        == old(self).nodes().contains_key(k)) && (old(self).nodes().contains_key(k)
                        ==> final(self).nodes()[k] == old(self).nodes()[k])
                }
            }),
            final(self).next_ino() == old(self).next_ino(),
    {
        let key = owned(name);
        let child = match self.nodes.get(&parent) {
            Some(FsNode::Directory(d)) => match d.children.get(&key) {
                Some(c) => *c,
                None => {
                    return Err(FsError::NotFound);
                },
            },
            _ => {
                return Err(FsError::NotFound);
            },
        };
        match self.nodes.get(&child) {
            Some(FsNode::File(_)) => {},
            _ => {
                return Err(FsError::NotFound);
            },
        }
        let now = now_millis();
        let mut dir = self.take_dir(parent).unwrap();
        dir.children.remove(&key);
        self.nodes.remove(&child);
        self.parent_map.remove(&child);
        dir.attr.mtime = now;
        dir.attr.ctime = now;
        self.nodes.insert(parent, FsNode::Directory(dir));
        Ok(())
    }

    /// The name a node carries.
    pub open spec fn node_name(n: FsNode) -> Seq<char> {
        match n {
            FsNode::File(f) => f.name@,
            FsNode::Directory(d) => d.name@,
        }
    }

    /// Whether renaming `name` in `parent` to `new_name` in `new_parent` gets past its
    /// checks: the entry exists, and the new parent is a directory without that name.
    pub open spec fn rename_passes_checks(self, parent: u64, name: Seq<char>, new_parent: u64, new_name: Seq<char>) -> bool {
        &&& self.is_dir(parent)
        &&& entries_of(self.nodes()[parent]).contains_key(name)
        &&& self.is_dir(new_parent)
        &&& !entries_of(self.nodes()[new_parent]).contains_key(new_name)
    }

    /// Whether renaming may go ahead without reaching an entry whose node is missing.
    pub fn rename_target_present(&self, parent: u64, name: &str, new_parent: u64, new_name: &str) -> (r: bool)
        ensures
            r == (self.rename_passes_checks(parent, name@, new_parent, new_name@)
                ==> self.nodes().contains_key(entries_of(self.nodes()[parent])[name@])),
    {
        let key = owned(name);
        let new_key = owned(new_name);
        let c = match self.nodes.get(&parent) {
            Some(FsNode::Directory(d)) => match d.children.get(&key) {
                Some(c) => *c,
                None => {
                    return true;
                },
            },
            _ => {
                return true;
            },
        };
        match self.nodes.get(&new_parent) {
            Some(FsNode::Directory(nd)) => {
                if nd.children.contains_key(&new_key) {
                    return true;
                }
            },
            _ => {
                return true;
            },
        }
        self.nodes.contains_key(&c)
    }

    /// Moves the entry `name` of `parent` to `new_parent` under `new_name`, keeping its
    /// node. `NotFound` when there is no such entry or the new parent is not a directory;
    /// `Io` when the new parent has an entry of the new name, and when the node is a
    /// directory being moved into itself (it is then removed from its parent and lost,
    /// as the operation had already detached it). A directory moved between parents moves
    /// a link from the old parent to the new one.
    pub fn rename(&mut self, parent: u64, name: &str, new_parent: u64, new_name: &str) -> (r: Result<(), FsError>)
        requires
            old(self).wf(),
            old(self).can_lose_subdir(parent),
            old(self).is_dir(new_parent) ==> attr_of(old(self).nodes()[new_parent]).nlink < u32::MAX,
            old(self).rename_passes_checks(parent, name@, new_parent, new_name@)
                ==> old(self).nodes().contains_key(entries_of(old(self).nodes()[parent])[name@]),
        ensures
            final(self).wf(),
            final(self).next_ino() == old(self).next_ino(),
            !(old(self).is_dir(parent) && entries_of(old(self).nodes()[parent]).contains_key(name@))
                ==> r == Err::<(), FsError>(FsError::NotFound) && final(self).nodes() == old(self).nodes(),
            old(self).is_dir(parent) && entries_of(old(self).nodes()[parent]).contains_key(name@)
                && !old(self).is_dir(new_parent)
                ==> r == Err::<(), FsError>(FsError::NotFound) && final(self).nodes() == old(self).nodes(),
            old(self).is_dir(parent) && entries_of(old(self).nodes()[parent]).contains_key(name@)
                && old(self).is_dir(new_parent) && entries_of(old(self).nodes()[new_parent]).contains_key(new_name@)
                ==> r == Err::<(), FsError>(FsError::Io) && final(self).nodes() == old(self).nodes(),
            old(self).rename_passes_checks(parent, name@, new_parent, new_name@) ==> {
                let c = entries_of(old(self).nodes()[parent])[name@];
                &&& c == new_parent ==> r == Err::<(), FsError>(FsError::Io) && !final(self).nodes().contains_key(c)
                &&& c != new_parent ==> {
                    &&& r is Ok
                    &&& final(self).nodes().contains_key(c)
                    &&& Self::node_name(final(self).nodes()[c]) == new_name@
                    &&& attr_of(final(self).nodes()[c]).ino == attr_of(old(self).nodes()[c]).ino
                    &&& attr_of(final(self).nodes()[c]).kind == attr_of(old(self).nodes()[c]).kind
                    &&& final(self).is_dir(new_parent)
                    &&& entries_of(final(self).nodes()[new_parent]).contains_key(new_name@)
                    &&& entries_of(final(self).nodes()[new_parent])[new_name@] == c
                    &&& final(self).lookup_spec(new_parent, new_name@) == Some(attr_of(final(self).nodes()[c]))
                    &&& final(self).parents() == old(self).parents().insert(c, new_parent)
                    &&& {
                        let a = attr_of(final(self).nodes()[c]);
                        let moved_dir = old(self).is_dir(c);
                        &&& a == (FileAttr { mtime: a.mtime, ctime: a.mtime, ..attr_of(old(self).nodes()[c]) })
                        &&& c != parent && parent != new_parent ==> {
                            &&& attr_of(final(self).nodes()[parent]) == (FileAttr { mtime: a.mtime, ctime: a.mtime,
                                nlink: if moved_dir { (attr_of(old(self).nodes()[parent]).nlink - 1) as u32 } else { attr_of(old(self).nodes()[parent]).nlink },
                                ..attr_of(old(self).nodes()[parent]) })
                            &&& attr_of(final(self).nodes()[new_parent]) == (FileAttr { mtime: a.mtime, ctime: a.mtime,
                                nlink: if moved_dir { (attr_of(old(self).nodes()[new_parent]).nlink + 1) as u32 } else { attr_of(old(self).nodes()[new_parent]).nlink },
                                ..attr_of(old(self).nodes()[new_parent]) })
                        }
                        &&& c != parent && parent == new_parent ==> attr_of(final(self).nodes()[parent])
                            == (FileAttr { mtime: a.mtime, ctime: a.mtime, ..attr_of(old(self).nodes()[parent]) })
                    }
                    &&& c != parent ==> {
                        &&& parent != new_parent ==> {
                            &&& final(self).is_dir(parent)
                            &&& entries_of(final(self).nodes()[parent]) == entries_of(old(self).nodes()[parent]).remove(name@)
                            &&& entries_of(final(self).nodes()[new_parent]) == entries_of(old(self).nodes()[new_parent]).insert(new_name@, c)
                        }
                        &&& parent == new_parent ==> entries_of(final(self).nodes()[parent])
                            == entries_of(old(self).nodes()[parent]).remove(name@).insert(new_name@, c)
                    }
                    &&& forall|k: u64| k != c && k != parent && k != new_parent ==> (#[trigger] final(self).nodes().contains_key(k)
                        == old(self).nodes().contains_key(k)) && (old(self).nodes().contains_key(k)
                        ==> final(self).nodes()[k] == old(self).nodes()[k])
                }
            },
    {
        let key = owned(name);
        let new_key = owned(new_name);
        let c = match self.nodes.get(&parent) {
            Some(FsNode::Directory(d)) => match d.children.get(&key) {
                Some(c) => *c,
                None => {
                    return Err(FsError::NotFound);
                },
            },
            _ => {
                return Err(FsError::NotFound);
            },
        };
        match self.nodes.get(&new_parent) {
            Some(FsNode::Directory(nd)) => {
                if nd.children.contains_key(&new_key) {
                    return Err(FsError::Io);
                }
            },
            _ => {
                return Err(FsError::NotFound);
            },
        }
        let mut node = self.nodes.remove(&c).unwrap();
        let now = now_millis();
        match self.take_dir(parent) {
            Some(mut d) => {
                d.children.remove(&key);
                d.attr.mtime = now;
                d.attr.ctime = now;
                self.nodes.insert(parent, FsNode::Directory(d));
            },
            None => {},
        }
        let moved_dir = match &mut node {
            FsNode::File(f) => {
                f.name = owned(new_name);
                f.attr.mtime = now;
                f.attr.ctime = now;
                false
            },
            FsNode::Directory(d) => {
                d.name = owned(new_name);
                d.attr.mtime = now;
                d.attr.ctime = now;
                true
            },
        };
        if moved_dir && parent != new_parent {
            match self.take_dir(parent) {
                Some(mut d) => {
                    d.attr.nlink = d.attr.nlink - 1;
                    self.nodes.insert(parent, FsNode::Directory(d));
                },
                None => {},
            }
            match self.take_dir(new_parent) {
                Some(mut d) => {
                    d.attr.nlink = d.attr.nlink + 1;
                    self.nodes.insert(new_parent, FsNode::Directory(d));
                },
                None => {},
            }
        }
        match self.take_dir(new_parent) {
            Some(mut d) => {
                d.children.insert(new_key, c);
                d.attr.mtime = now;
                d.attr.ctime = now;
                self.nodes.insert(new_parent, FsNode::Directory(d));
                self.nodes.insert(c, node);
                self.parent_map.insert(c, new_parent);
                Ok(())
            },
            None => Err(FsError::Io),
        }
    }

    /// The listing of directory `ino`, as values.
    pub closed spec fn listing(self, ino: u64) -> Seq<ListedEntry> {
        let up = if self.parent_map@.contains_key(ino) { self.parent_map@[ino] } else { ROOT_INO };
        match self.nodes@[ino] {
            FsNode::Directory(d) => seq![
                ListedEntry { ino, kind: FileKind::Directory, name: "."@ },
                ListedEntry { ino: up, kind: FileKind::Directory, name: ".."@ },
            ] + listed_children(d.children.entries(), self.nodes@),
            FsNode::File(_) => Seq::empty(),
        }
    }
}

/// Directory entries as listed: those whose node exists, with the node's kind.
pub open spec fn listed_children(es: Seq<(String, u64)>, nodes: Map<u64, FsNode>) -> Seq<ListedEntry>
    decreases es.len(),
{
    if es.len() == 0 {
        Seq::empty()
    } else if nodes.contains_key(es.last().1) {
        listed_children(es.drop_last(), nodes).push(
            ListedEntry { ino: es.last().1, kind: attr_of(nodes[es.last().1]).kind, name: es.last().0@ },
        )
    } else {
        listed_children(es.drop_last(), nodes)
    }
}

proof fn lemma_listed_len(es: Seq<(String, u64)>, nodes: Map<u64, FsNode>)
    ensures
        listed_children(es, nodes).len() <= es.len(),
    decreases es.len(),
{
    if es.len() > 0 {
        lemma_listed_len(es.drop_last(), nodes);
    }
}

/// Listing entries as values.
pub open spec fn listed_of(v: Seq<DirEntry>) -> Seq<ListedEntry> {
    v.map_values(|e: DirEntry| ListedEntry { ino: e.ino, kind: e.kind, name: e.name@ })
}

} // verus!
