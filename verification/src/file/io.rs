//! Operations on remote files that are open.

use vstd::prelude::*;

use crate::detour::{Bypass, Detour, HookError};
#[allow(unused_imports)]
use crate::detour::{BypassView, DetourView};
use crate::file::layer::{get_remote_fd, FileLayer, RemoteFile};
#[allow(unused_imports)]
use crate::file::layer::{read_request, FileLayerView, MAX_READ_SIZE};
use crate::platform::{seek_cur, seek_end, seek_set};
use crate::protocol::{
    flatten, GetDEnts64Request, ProxyResult, ReadFileRequest, ReadLimitedFileRequest,
    SeekFileRequest, SeekFileResponse, SeekFromInternal, WriteFileRequest, WriteFileResponse,
    WriteLimitedFileRequest, XstatFsRequest,
};
#[allow(unused_imports)]
use crate::protocol::{relayed, WriteFileRequestView, WriteLimitedFileRequestView};
use crate::text::{append_bytes, utf8_text};

verus! {

/// How a call on a descriptor starts that is one request to the agent: with
/// the request, if the descriptor stands for a remote file.
pub open spec fn on_remote_file<R>(
    layer: FileLayerView,
    local_fd: i32,
    request: spec_fn(u64) -> R,
) -> DetourView<R> {
    match layer.remote_fd(local_fd) {
        DetourView::Success(remote_fd) => DetourView::Success(request(remote_fd)),
        other => other.cut_short(),
    }
}

/// How a call starts whose request is plain numbers.
pub open spec fn plainly<R>(start: Detour<R>) -> DetourView<R> {
    match start {
        Detour::Success(request) => DetourView::Success(request),
        Detour::Bypass(bypass) => DetourView::Bypass(bypass@),
        Detour::Error(error) => DetourView::Error(error),
    }
}

/// Starts a read from the place that was reached.
pub fn read(layer: &FileLayer, local_fd: i32, read_amount: u64) -> (start: Detour<ReadFileRequest>)
    ensures
        plainly(start) == on_remote_file(
            layer@,
            local_fd,
            |remote_fd: u64| read_request(remote_fd, read_amount),
        ),
        layer@.files.contains_key(local_fd) ==> {
            &&& start matches Detour::Success(request)
            &&& request.remote_fd == layer@.files[local_fd].fd
            &&& request.buffer_size <= read_amount
            &&& read_amount <= MAX_READ_SIZE ==> request.buffer_size == read_amount
        },
{
    match get_remote_fd(layer, local_fd) {
        Detour::Success(remote_fd) => Detour::Success(
            RemoteFile::remote_read(remote_fd, read_amount),
        ),
        Detour::Bypass(bypass) => Detour::Bypass(bypass),
        Detour::Error(error) => Detour::Error(error),
    }
}

/// Starts a read from a place in a file.
pub fn pread(layer: &FileLayer, local_fd: i32, buffer_size: u64, offset: u64) -> (start: Detour<
    ReadLimitedFileRequest,
>)
    ensures
        plainly(start) == on_remote_file(
            layer@,
            local_fd,
            |remote_fd: u64|
                ReadLimitedFileRequest { remote_fd, buffer_size, start_from: offset },
        ),
        layer@.files.contains_key(local_fd) ==> {
            &&& start matches Detour::Success(request)
            &&& request.remote_fd == layer@.files[local_fd].fd
            &&& request.buffer_size == buffer_size
            &&& request.start_from == offset
        },
{
    match get_remote_fd(layer, local_fd) {
        Detour::Success(remote_fd) => Detour::Success(
            ReadLimitedFileRequest { remote_fd, buffer_size, start_from: offset },
        ),
        Detour::Bypass(bypass) => Detour::Bypass(bypass),
        Detour::Error(error) => Detour::Error(error),
    }
}

/// Starts a write at a place in a file.
pub fn pwrite(layer: &FileLayer, local_fd: i32, buffer: &[u8], offset: u64) -> (start: Detour<
    WriteLimitedFileRequest,
>)
    ensures
        start@ == on_remote_file(
            layer@,
            local_fd,
            |remote_fd: u64|
                WriteLimitedFileRequestView {
                    remote_fd,
                    write_bytes: buffer@,
                    start_from: offset,
                },
        ),
        layer@.files.contains_key(local_fd) ==> {
            &&& start matches Detour::Success(request)
            &&& request.remote_fd == layer@.files[local_fd].fd
            &&& request.write_bytes@ == buffer@
            &&& request.start_from == offset
        },
{
    match get_remote_fd(layer, local_fd) {
        Detour::Success(remote_fd) => {
            let mut write_bytes: Vec<u8> = Vec::new();
            append_bytes(&mut write_bytes, buffer);
            assert(write_bytes@ =~= buffer@);
            Detour::Success(WriteLimitedFileRequest { remote_fd, write_bytes, start_from: offset })
        },
        Detour::Bypass(bypass) => Detour::Bypass(bypass),
        Detour::Error(error) => Detour::Error(error),
    }
}

/// The place that an offset means, by the system's number for where it counts
/// from. A negative offset from the start becomes the unsigned number with the
/// same bits.
pub open spec fn seek_target(offset: i64, whence: i32) -> Option<SeekFromInternal> {
    if whence == 0 {
        Some(SeekFromInternal::Start(offset as u64))
    } else if whence == 1 {
        Some(SeekFromInternal::Current(offset))
    } else if whence == 2 {
        Some(SeekFromInternal::End(offset))
    } else {
        None
    }
}

/// How a move to a place in a file starts.
pub open spec fn seek_start(
    layer: FileLayerView,
    local_fd: i32,
    offset: i64,
    whence: i32,
) -> DetourView<SeekFileRequest> {
    match (layer.remote_fd(local_fd), seek_target(offset, whence)) {
        (DetourView::Success(fd), Some(seek_from)) => DetourView::Success(
            SeekFileRequest { fd, seek_from },
        ),
        (DetourView::Success(fd), None) => DetourView::Bypass(BypassView::CStrConversion),
        (other, _) => other.cut_short(),
    }
}

/// Starts a move to a place in a file. A number that does not say where the
/// offset counts from is the system's to judge.
pub fn lseek(layer: &FileLayer, local_fd: i32, offset: i64, whence: i32) -> (start: Detour<
    SeekFileRequest,
>)
    ensures
        plainly(start) == seek_start(layer@, local_fd, offset, whence),
        layer@.files.contains_key(local_fd) && 0 <= whence <= 2 ==> {
            &&& start matches Detour::Success(request)
            &&& request.fd == layer@.files[local_fd].fd
            &&& whence == 0 ==> request.seek_from == SeekFromInternal::Start(offset as u64)
            &&& whence == 1 ==> request.seek_from == SeekFromInternal::Current(offset)
            &&& whence == 2 ==> request.seek_from == SeekFromInternal::End(offset)
        },
{
    match get_remote_fd(layer, local_fd) {
        Detour::Success(fd) => {
            let seek_from = if whence == seek_set() {
                SeekFromInternal::Start(offset as u64)
            } else if whence == seek_cur() {
                SeekFromInternal::Current(offset)
            } else if whence == seek_end() {
                SeekFromInternal::End(offset)
            } else {
                return Detour::Bypass(Bypass::CStrConversion);
            };
            Detour::Success(SeekFileRequest { fd, seek_from })
        },
        Detour::Bypass(bypass) => Detour::Bypass(bypass),
        Detour::Error(error) => Detour::Error(error),
    }
}

/// Ends a move to a place in a file with the place.
pub fn lseek_answered(reply: ProxyResult<SeekFileResponse>) -> (end: Detour<u64>)
    ensures
        end == match relayed(reply) {
            Ok(response) => Detour::Success(response.result_offset),
            Err(error) => Detour::Error(error),
        },
        reply matches Ok(Ok(response)) ==> end == Detour::Success(response.result_offset),
        reply is Err || reply->Ok_0 is Err ==> end is Error,
{
    match flatten(reply) {
        Ok(response) => Detour::Success(response.result_offset),
        Err(error) => Detour::Error(error),
    }
}

/// How a write at the place that was reached starts.
pub open spec fn write_start(
    layer: FileLayerView,
    local_fd: i32,
    write_bytes: Option<Vec<u8>>,
) -> DetourView<WriteFileRequestView> {
    match (layer.remote_fd(local_fd), write_bytes) {
        (DetourView::Success(fd), Some(bytes)) => DetourView::Success(
            WriteFileRequestView { fd, write_bytes: bytes@ },
        ),
        (DetourView::Success(fd), None) => DetourView::Bypass(BypassView::EmptyBuffer),
        (other, _) => other.cut_short(),
    }
}

/// Starts a write at the place that was reached. Without a buffer the call is
/// the system's.
pub fn write(layer: &FileLayer, local_fd: i32, write_bytes: Option<Vec<u8>>) -> (start: Detour<
    WriteFileRequest,
>)
    ensures
        start@ == write_start(layer@, local_fd, write_bytes),
        write_bytes matches Some(bytes) ==> layer@.files.contains_key(local_fd) ==> {
            &&& start matches Detour::Success(request)
            &&& request.fd == layer@.files[local_fd].fd
            &&& request.write_bytes@ == bytes@
        },
{
    match get_remote_fd(layer, local_fd) {
        Detour::Success(fd) => match write_bytes {
            Some(write_bytes) => Detour::Success(WriteFileRequest { fd, write_bytes }),
            None => Detour::Bypass(Bypass::EmptyBuffer),
        },
        Detour::Bypass(bypass) => Detour::Bypass(bypass),
        Detour::Error(error) => Detour::Error(error),
    }
}

/// Ends a write with the number of bytes that were written. It is an error if
/// the local program's type for it cannot hold the number.
pub fn write_answered(reply: ProxyResult<WriteFileResponse>) -> (end: Detour<isize>)
    ensures
        end == match relayed(reply) {
            Ok(response) => if response.written_amount <= isize::MAX {
                Detour::Success(response.written_amount as isize)
            } else {
                Detour::Error(HookError::TryFromInt)
            },
            Err(error) => Detour::Error(error),
        },
        reply matches Ok(Ok(response)) ==> end matches Detour::Success(amount) ==> amount
            == response.written_amount,
        reply is Err || reply->Ok_0 is Err ==> end is Error,
{
    match flatten(reply) {
        Ok(response) => if response.written_amount <= isize::MAX as u64 {
            Detour::Success(response.written_amount as isize)
        } else {
            Detour::Error(HookError::TryFromInt)
        },
        Err(error) => Detour::Error(error),
    }
}

/// Flushes a file. Nothing of a remote file waits here to be written, so the
/// call succeeds at once.
pub fn fsync(layer: &FileLayer, fd: i32) -> (end: Detour<i32>)
    ensures
        end@ == on_remote_file(layer@, fd, |remote_fd: u64| 0i32),
        end == Detour::Success(0i32) <==> layer@.files.contains_key(fd),
{
    match get_remote_fd(layer, fd) {
        Detour::Success(_) => Detour::Success(0),
        Detour::Bypass(bypass) => Detour::Bypass(bypass),
        Detour::Error(error) => Detour::Error(error),
    }
}

/// Starts a description of the file system of a file.
pub fn xstatfs(layer: &FileLayer, fd: i32) -> (start: Detour<XstatFsRequest>)
    ensures
        plainly(start) == on_remote_file(
            layer@,
            fd,
            |remote_fd: u64| XstatFsRequest { fd: remote_fd },
        ),
        layer@.files.contains_key(fd) ==> {
            &&& start matches Detour::Success(request)
            &&& request.fd == layer@.files[fd].fd
        },
{
    match get_remote_fd(layer, fd) {
        Detour::Success(remote_fd) => Detour::Success(XstatFsRequest { fd: remote_fd }),
        Detour::Bypass(bypass) => Detour::Bypass(bypass),
        Detour::Error(error) => Detour::Error(error),
    }
}

/// Starts a listing of a directory.
pub fn getdents64(layer: &FileLayer, fd: i32, buffer_size: u64) -> (start: Detour<
    GetDEnts64Request,
>)
    ensures
        plainly(start) == on_remote_file(
            layer@,
            fd,
            |remote_fd: u64| GetDEnts64Request { remote_fd, buffer_size },
        ),
        layer@.files.contains_key(fd) ==> {
            &&& start matches Detour::Success(request)
            &&& request.remote_fd == layer@.files[fd].fd
            &&& request.buffer_size == buffer_size
        },
{
    match get_remote_fd(layer, fd) {
        Detour::Success(remote_fd) => Detour::Success(GetDEnts64Request { remote_fd, buffer_size }),
        Detour::Bypass(bypass) => Detour::Bypass(bypass),
        Detour::Error(error) => Detour::Error(error),
    }
}

/// Makes a stream of an open file. The stream is the descriptor itself, as an
/// address. A mode that is not UTF-8 is the system's to judge.
pub fn fdopen(layer: &FileLayer, fd: i32, rawish_mode: Option<&[u8]>) -> (stream: Detour<usize>)
    ensures
        stream@ == if rawish_mode matches Some(mode) && !vstd::utf8::valid_utf8(mode@) {
            DetourView::Bypass(BypassView::CStrConversion)
        } else {
            on_remote_file(layer@, fd, |remote_fd: u64| fd as usize)
        },
        stream matches Detour::Success(address) ==> address == fd as usize,
        rawish_mode is None ==> (stream is Success <==> layer@.files.contains_key(fd)),
{
    match rawish_mode {
        Some(mode) => {
            if utf8_text(mode).is_none() {
                return Detour::Bypass(Bypass::CStrConversion);
            }
        },
        None => {},
    }
    match get_remote_fd(layer, fd) {
        Detour::Success(_) => Detour::Success(fd as usize),
        Detour::Bypass(bypass) => Detour::Bypass(bypass),
        Detour::Error(error) => Detour::Error(error),
    }
}

} // verus!
