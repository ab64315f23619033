//! The remote files that local descriptors stand for.

use std::collections::HashMap;
use vstd::prelude::*;

use crate::detour::{Bypass, Detour};
#[allow(unused_imports)]
use crate::detour::{BypassView, DetourView};
use crate::path::PathBuf;
use crate::protocol::{
    CloseFileRequest, OpenFileRequest, OpenOptionsInternal, ReadFileRequest,
};
#[allow(unused_imports)]
use crate::protocol::OpenFileRequestView;

verus! {

broadcast use vstd::std_specs::hash::group_hash_axioms;

/// One mebibyte. The answer to a larger read can take too long to come.
pub const MAX_READ_SIZE: u64 = 1024 * 1024;

/// A file that the agent holds open.
#[derive(Debug, Clone, PartialEq, Eq, PartialOrd, Ord)]
pub struct RemoteFile {
    pub fd: u64,
    pub path: String,
}

/// What a [`RemoteFile`] says.
pub struct RemoteFileView {
    pub fd: u64,
    pub path: Seq<char>,
}

impl View for RemoteFile {
    type V = RemoteFileView;

    open spec fn view(&self) -> RemoteFileView {
        RemoteFileView { fd: self.fd, path: self.path@ }
    }
}

/// The request for a read of some bytes of an open file: what is asked for,
/// but no more than [`MAX_READ_SIZE`].
pub open spec fn read_request(remote_fd: u64, read_amount: u64) -> ReadFileRequest {
    ReadFileRequest {
        remote_fd,
        buffer_size: if read_amount <= MAX_READ_SIZE {
            read_amount
        } else {
            MAX_READ_SIZE
        },
    }
}

impl RemoteFile {
    pub fn new(fd: u64, path: String) -> (file: Self)
        ensures
            file.fd == fd,
            file.path == path,
    {
        RemoteFile { fd, path }
    }

    /// The request that opens the file at a path.
    pub fn remote_open(path: PathBuf, open_options: OpenOptionsInternal) -> (request:
        OpenFileRequest)
        ensures
            request@ == (OpenFileRequestView { path: path@, open_options }),
    {
        OpenFileRequest { path, open_options }
    }

    /// The request that reads on from the place that was reached. It asks for
    /// no more than [`MAX_READ_SIZE`] bytes.
    pub fn remote_read(remote_fd: u64, read_amount: u64) -> (request: ReadFileRequest)
        ensures
            request == read_request(remote_fd, read_amount),
            request.remote_fd == remote_fd,
            request.buffer_size <= read_amount,
            request.buffer_size <= MAX_READ_SIZE,
            read_amount <= MAX_READ_SIZE ==> request.buffer_size == read_amount,
            read_amount >= MAX_READ_SIZE ==> request.buffer_size == MAX_READ_SIZE,
    {
        let buffer_size: u64 = if read_amount <= MAX_READ_SIZE {
            read_amount
        } else {
            MAX_READ_SIZE
        };
        ReadFileRequest { remote_fd, buffer_size }
    }

    /// The request that closes an open file.
    pub fn remote_close(fd: u64) -> (request: CloseFileRequest)
        ensures
            request == (CloseFileRequest { fd }),
    {
        CloseFileRequest { fd }
    }
}

/// A directory stream that the agent holds open, and the local descriptor that
/// it was made of.
#[derive(Clone, Copy, Debug, PartialEq, Eq, Structural)]
pub struct OpenDir {
    pub remote_fd: u64,
    pub base_fd: i32,
}

/// The remote files and directory streams that local descriptors stand for.
pub struct FileLayer {
    open_files: HashMap<i32, RemoteFile>,
    open_dirs: HashMap<usize, OpenDir>,
}

/// What a [`FileLayer`] holds.
#[verifier::ext_equal]
pub struct FileLayerView {
    pub files: Map<i32, RemoteFileView>,
    pub dirs: Map<usize, OpenDir>,
}

impl View for FileLayer {
    type V = FileLayerView;

    closed spec fn view(&self) -> FileLayerView {
        FileLayerView {
            files: self.open_files@.map_values(|file: RemoteFile| file@),
            dirs: self.open_dirs@,
        }
    }
}

impl FileLayerView {
    /// The layer without files.
    pub open spec fn empty() -> Self {
        FileLayerView { files: Map::empty(), dirs: Map::empty() }
    }

    /// The agent's descriptor of the file that a local descriptor stands for.
    /// A call on any other descriptor is the system's.
    pub open spec fn remote_fd(self, local_fd: i32) -> DetourView<u64> {
        if self.files.contains_key(local_fd) {
            DetourView::Success(self.files[local_fd].fd)
        } else {
            DetourView::Bypass(BypassView::LocalFdNotFound(local_fd))
        }
    }

    /// After a local descriptor came to stand for a remote file.
    pub open spec fn with_file(self, local_fd: i32, file: RemoteFileView) -> Self {
        FileLayerView { files: self.files.insert(local_fd, file), ..self }
    }

    /// After a local descriptor ceased to stand for a remote file.
    pub open spec fn without_file(self, local_fd: i32) -> Self {
        FileLayerView { files: self.files.remove(local_fd), ..self }
    }

    /// After a local descriptor came to stand for a directory stream.
    pub open spec fn with_dir(self, local_dir: usize, dir: OpenDir) -> Self {
        FileLayerView { dirs: self.dirs.insert(local_dir, dir), ..self }
    }
}

impl Default for FileLayer {
    fn default() -> (layer: Self)
        ensures
            layer@ == FileLayerView::empty(),
    {
        let layer = FileLayer { open_files: HashMap::new(), open_dirs: HashMap::new() };
        assert(layer@ =~= FileLayerView::empty());
        layer
    }
}

impl FileLayer {
    /// Lets a local descriptor stand for a remote file. Returns the file that
    /// it stood for before.
    pub(crate) fn insert_file(&mut self, local_fd: i32, file: RemoteFile) -> (displaced: Option<
        RemoteFile,
    >)
        ensures
            final(self)@ == old(self)@.with_file(local_fd, file@),
            match displaced {
                Some(before) => old(self)@.files.contains_key(local_fd) && before@ == old(
                    self,
                )@.files[local_fd],
                None => !old(self)@.files.contains_key(local_fd),
            },
    {
        let displaced = self.open_files.insert(local_fd, file);
        assert(self@ =~= old(self)@.with_file(local_fd, file@));
        displaced
    }

    /// Lets a local descriptor no longer stand for a remote file. Returns the
    /// request that closes the file, if there was one.
    pub fn remove_file(&mut self, local_fd: i32) -> (close: Option<CloseFileRequest>)
        ensures
            final(self)@ == old(self)@.without_file(local_fd),
            close == if old(self)@.files.contains_key(local_fd) {
                Some(CloseFileRequest { fd: old(self)@.files[local_fd].fd })
            } else {
                None
            },
    {
        let removed = self.open_files.remove(&local_fd);
        assert(self@ =~= old(self)@.without_file(local_fd));
        match removed {
            Some(file) => Some(RemoteFile::remote_close(file.fd)),
            None => None,
        }
    }

    /// Lets a local descriptor stand for a directory stream.
    pub(crate) fn insert_dir(&mut self, local_dir: usize, dir: OpenDir)
        ensures
            final(self)@ == old(self)@.with_dir(local_dir, dir),
    {
        self.open_dirs.insert(local_dir, dir);
    }

    /// The remote file that a local descriptor stands for.
    pub fn file(&self, local_fd: i32) -> (file: Option<&RemoteFile>)
        ensures
            match file {
                Some(f) => self@.files.contains_key(local_fd) && f@ == self@.files[local_fd],
                None => !self@.files.contains_key(local_fd),
            },
    {
        self.open_files.get(&local_fd)
    }

    /// The directory stream that a local descriptor stands for.
    pub fn dir(&self, local_dir: usize) -> (dir: Option<&OpenDir>)
        ensures
            match dir {
                Some(d) => self@.dirs.contains_key(local_dir) && *d == self@.dirs[local_dir],
                None => !self@.dirs.contains_key(local_dir),
            },
    {
        self.open_dirs.get(&local_dir)
    }
}

/// The agent's descriptor of the file that a local descriptor stands for.
pub fn get_remote_fd(layer: &FileLayer, local_fd: i32) -> (remote_fd: Detour<u64>)
    ensures
        remote_fd@ == layer@.remote_fd(local_fd),
{
    match layer.file(local_fd) {
        Some(file) => Detour::Success(file.fd),
        None => Detour::Bypass(Bypass::LocalFdNotFound(local_fd)),
    }
}

} // verus!
