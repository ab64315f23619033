//! Local files whose descriptors stand for remote ones.

use vstd::prelude::*;
use vstd::utf8::{
    decode_utf8_encode_utf8, encode_utf8, encode_utf8_decode_utf8, encode_utf8_valid_utf8,
    is_ascii_chars, is_ascii_chars_encode_utf8, valid_utf8, valid_utf8_concat,
};

use crate::detour::{Detour, HookError};
#[allow(unused_imports)]
use crate::detour::DetourView;
use crate::file::action::{Action, Event, Step};
#[allow(unused_imports)]
use crate::file::action::{ActionView, StepView};
use crate::file::layer::RemoteFile;
use crate::path::PathBuf;
#[allow(unused_imports)]
use crate::path::{followed_by, SEPARATOR};
#[allow(unused_imports)]
use crate::platform::is_alphanumeric;
use crate::platform::random_text;
use crate::protocol::CloseFileRequest;
use crate::text::{append_bytes, contains_byte, decimal_digits};
#[allow(unused_imports)]
use crate::text::{decimal, decimal_is_read_back, number_of, shown};

verus! {

/// The byte between the two parts of a local file's name.
pub const HYPHEN: u8 = 45;

/// How many random characters a local file's name ends in.
pub const RANDOM_LENGTH: usize = 16;

/// What can be the random part of a local file's name.
pub open spec fn is_random_part(random: Seq<char>) -> bool {
    &&& random.len() == RANDOM_LENGTH
    &&& forall|i: int| 0 <= i < random.len() ==> is_alphanumeric(#[trigger] random[i])
}

/// The name of the local file for a remote one: the agent's descriptor, a
/// hyphen and the random part.
pub open spec fn local_file_name(remote_fd: u64, random: Seq<char>) -> Seq<u8> {
    decimal(remote_fd as nat).push(HYPHEN) + encode_utf8(random)
}

/// The path of the local file for a remote one: its name behind the directory
/// for temporary files. A directory that is not UTF-8 is taken as it is shown.
pub open spec fn local_file_bytes(
    temp_dir: Seq<u8>,
    remote_fd: u64,
    random: Seq<char>,
) -> Seq<u8> {
    let path = followed_by(temp_dir, local_file_name(remote_fd, random));
    if valid_utf8(temp_dir) {
        path
    } else {
        encode_utf8(shown(path))
    }
}

/// The path of the local file for a remote one, as text.
pub fn local_file_path(temp_dir: &PathBuf, remote_fd: u64, random: &str) -> (text: String)
    ensures
        text@ == shown(followed_by(temp_dir@, local_file_name(remote_fd, random@))),
        encode_utf8(text@) == local_file_bytes(temp_dir@, remote_fd, random@),
{
    let mut name = decimal_digits(remote_fd);
    name.push(HYPHEN);
    append_bytes(&mut name, random.as_bytes());
    assert(name@ =~= local_file_name(remote_fd, random@));
    proof {
        local_file_name_is_utf8(remote_fd, random@);
        if valid_utf8(temp_dir@) {
            followed_by_is_utf8(temp_dir@, name@);
            decode_utf8_encode_utf8(followed_by(temp_dir@, name@));
        }
    }
    temp_dir.join(name.as_slice()).display()
}

proof fn ascii_byte_is_utf8(byte: u8)
    requires
        byte < 128,
    ensures
        valid_utf8(seq![byte]),
{
    let bytes = seq![byte];
    let c = byte as char;
    assert(encode_utf8(seq![c]) =~= bytes) by {
        is_ascii_chars_encode_utf8(seq![c]);
    }
    encode_utf8_valid_utf8(seq![c]);
}

proof fn decimal_is_utf8(number: nat)
    ensures
        valid_utf8(decimal(number)),
    decreases number,
{
    if number < 10 {
        ascii_byte_is_utf8((48 + number) as u8);
    } else {
        let digit = (48 + number % 10) as u8;
        decimal_is_utf8(number / 10);
        ascii_byte_is_utf8(digit);
        valid_utf8_concat(decimal(number / 10), seq![digit]);
        assert(decimal(number / 10) + seq![digit] =~= decimal(number));
    }
}

proof fn local_file_name_is_utf8(remote_fd: u64, random: Seq<char>)
    ensures
        valid_utf8(local_file_name(remote_fd, random)),
{
    let digits = decimal(remote_fd as nat);
    decimal_is_utf8(remote_fd as nat);
    ascii_byte_is_utf8(HYPHEN);
    valid_utf8_concat(digits, seq![HYPHEN]);
    assert(digits + seq![HYPHEN] =~= digits.push(HYPHEN));
    encode_utf8_valid_utf8(random);
    valid_utf8_concat(digits.push(HYPHEN), encode_utf8(random));
}

proof fn followed_by_is_utf8(path: Seq<u8>, next: Seq<u8>)
    requires
        valid_utf8(path),
        valid_utf8(next),
    ensures
        valid_utf8(followed_by(path, next)),
{
    ascii_byte_is_utf8(SEPARATOR);
    valid_utf8_concat(path, next);
    valid_utf8_concat(path, seq![SEPARATOR]);
    assert(path + seq![SEPARATOR] =~= path.push(SEPARATOR));
    valid_utf8_concat(path.push(SEPARATOR), next);
}

proof fn decimal_has_no_zero(number: nat)
    ensures
        !decimal(number).contains(0u8),
    decreases number,
{
    if number >= 10 {
        decimal_has_no_zero(number / 10);
        let digits = decimal(number);
        assert forall|i: int| 0 <= i < digits.len() implies digits[i] != 0 by {
            if i < digits.len() - 1 {
                assert(decimal(number / 10).contains(digits[i]));
            }
        }
    }
}

/// In a directory whose path is UTF-8 and has no zero byte in it, the system
/// takes the path of every local file.
pub proof fn local_file_path_has_no_zero(temp_dir: Seq<u8>, remote_fd: u64, random: Seq<char>)
    requires
        is_random_part(random),
        valid_utf8(temp_dir),
        !temp_dir.contains(0u8),
    ensures
        !local_file_bytes(temp_dir, remote_fd, random).contains(0u8),
{
    let digits = decimal(remote_fd as nat);
    let tail = encode_utf8(random);
    let name = local_file_name(remote_fd, random);
    let path = followed_by(temp_dir, name);
    decimal_has_no_zero(remote_fd as nat);
    assert(is_ascii_chars(random));
    is_ascii_chars_encode_utf8(random);
    assert forall|i: int| 0 <= i < name.len() implies name[i] != 0 by {
        if i < digits.len() {
            assert(digits.contains(name[i]));
        } else if i > digits.len() {
            let at = i - digits.len() - 1;
            assert(name[i] == tail[at]);
            assert(is_alphanumeric(random[at]));
            assert(random[at] as u8 == tail[at]);
        }
    }
    let before = path.len() - name.len();
    assert forall|i: int| 0 <= i < path.len() implies path[i] != 0 by {
        if i >= before {
            assert(path[i] == name[i - before]);
        } else if i < temp_dir.len() {
            assert(temp_dir.contains(path[i]));
        }
    }
}

/// The random part of a local file's name is sixteen letters and digits of ASCII.
pub proof fn random_part_is_sixteen_letters_and_digits(random: Seq<char>)
    ensures
        is_random_part(random) <==> random.len() == 16 && forall|i: int|
            0 <= i < random.len() ==> {
                ||| 'a' <= #[trigger] random[i] <= 'z'
                ||| 'A' <= random[i] <= 'Z'
                ||| '0' <= random[i] <= '9'
            },
{
    if random.len() == 16 && forall|i: int|
        0 <= i < random.len() ==> {
            ||| 'a' <= #[trigger] random[i] <= 'z'
            ||| 'A' <= random[i] <= 'Z'
            ||| '0' <= random[i] <= '9'
        } {
        assert forall|i: int| 0 <= i < random.len() implies is_alphanumeric(
            #[trigger] random[i],
        ) by {}
    }
    if is_random_part(random) {
        assert forall|i: int| 0 <= i < random.len() implies {
            ||| 'a' <= #[trigger] random[i] <= 'z'
            ||| 'A' <= random[i] <= 'Z'
            ||| '0' <= random[i] <= '9'
        } by {
            assert(is_alphanumeric(random[i]));
        }
    }
}

/// A local file's name starts with the digits of the agent's descriptor; then come a
/// hyphen and the random part.
pub proof fn local_file_name_says_the_remote_file(remote_fd: u64, random: Seq<char>)
    ensures
        ({
            let name = local_file_name(remote_fd, random);
            let digits = name.len() - encode_utf8(random).len() - 1;
            &&& digits > 0
            &&& number_of(name.take(digits)) == remote_fd
            &&& forall|i: int| 0 <= i < digits ==> 48 <= #[trigger] name[i] <= 57
            &&& name[digits] == 45
            &&& name.skip(digits + 1) == encode_utf8(random)
        }),
{
    let name = local_file_name(remote_fd, random);
    let digits = decimal(remote_fd as nat);
    decimal_is_read_back(remote_fd as nat);
    assert(name.take(digits.len() as int) =~= digits);
    assert(name.skip(digits.len() + 1int) =~= encode_utf8(random));
    assert forall|i: int| 0 <= i < digits.len() implies 48 <= #[trigger] name[i] <= 57 by {
        assert(name[i] == digits[i]);
    }
}

/// Local files of different remote files have different names, and so have two for
/// the same remote file with different random parts.
pub proof fn local_file_names_tell_files_apart(
    first_fd: u64,
    first: Seq<char>,
    second_fd: u64,
    second: Seq<char>,
)
    requires
        local_file_name(first_fd, first) == local_file_name(second_fd, second),
    ensures
        first_fd == second_fd,
        first == second,
{
    let name = local_file_name(first_fd, first);
    let first_digits = name.len() - encode_utf8(first).len() - 1;
    let second_digits = name.len() - encode_utf8(second).len() - 1;
    local_file_name_says_the_remote_file(first_fd, first);
    local_file_name_says_the_remote_file(second_fd, second);
    assert(first_digits == second_digits) by {
        if first_digits < second_digits {
            assert(48 <= name[first_digits]);
        } else if second_digits < first_digits {
            assert(48 <= name[second_digits]);
        }
    }
    encode_utf8_decode_utf8(first);
    encode_utf8_decode_utf8(second);
}

/// The path of a local file is that of the directory with the file's name behind it,
/// with one separator where they meet. A path that is not UTF-8 is taken as it is
/// shown.
pub proof fn local_file_is_in_the_directory(
    temp_dir: Seq<u8>,
    remote_fd: u64,
    random: Seq<char>,
)
    ensures
        ({
            let path = local_file_bytes(temp_dir, remote_fd, random);
            let name = local_file_name(remote_fd, random);
            &&& valid_utf8(temp_dir) && temp_dir.len() > 0 && temp_dir.last() != 47 ==> path
                == temp_dir + seq![47u8] + name
            &&& valid_utf8(temp_dir) && temp_dir.len() > 0 && temp_dir.last() == 47 ==> path
                == temp_dir + name
            &&& temp_dir.len() == 0 ==> path == name
            &&& path == encode_utf8(shown(followed_by(temp_dir, name)))
        }),
{
    let name = local_file_name(remote_fd, random);
    local_file_name_says_the_remote_file(remote_fd, random);
    local_file_name_is_utf8(remote_fd, random);
    assert(temp_dir + seq![47u8] =~= temp_dir.push(47u8));
    if valid_utf8(temp_dir) {
        followed_by_is_utf8(temp_dir, name);
        decode_utf8_encode_utf8(followed_by(temp_dir, name));
    }
    if temp_dir.len() == 0 {
        assert(temp_dir + name =~= name);
        assert(valid_utf8(temp_dir)) by {
            encode_utf8_valid_utf8(Seq::empty());
            assert(encode_utf8(Seq::empty()) =~= temp_dir);
        }
    }
}

/// The bytes of a text that is to be a path for the system, which ends a path
/// at the first zero byte: a text with such a byte in it is an error.
pub fn system_path(text: &str) -> (path: Result<Vec<u8>, HookError>)
    ensures
        match path {
            Ok(bytes) => bytes@ == encode_utf8(text@) && !encode_utf8(text@).contains(0u8),
            Err(error) => error == HookError::Null && encode_utf8(text@).contains(0u8),
        },
{
    let bytes = text.as_bytes();
    if contains_byte(bytes, 0) {
        Err(HookError::Null)
    } else {
        let mut path: Vec<u8> = Vec::new();
        append_bytes(&mut path, bytes);
        assert(path@ =~= encode_utf8(text@));
        Ok(path)
    }
}

/// The request that closes a remote file for which there is no local one.
pub fn close_remote_file_on_failure(fd: u64) -> (request: CloseFileRequest)
    ensures
        request == (CloseFileRequest { fd }),
{
    RemoteFile::remote_close(fd)
}

/// How far the making of a local file is.
#[derive(Debug)]
pub enum LocalFileOp {
    /// The directory for it is looked for.
    Locate { remote_fd: u64, random: String },
    /// It is being opened.
    Open { remote_fd: u64, path: Vec<u8> },
    /// It is open, and being taken out of its directory.
    Unlink { local_fd: i32 },
    /// It could not be opened, and the remote file is being closed.
    Close { remote_fd: u64 },
}

/// What a [`LocalFileOp`] says.
pub enum LocalFileOpView {
    Locate { remote_fd: u64, random: Seq<char> },
    Open { remote_fd: u64, path: Seq<u8> },
    Unlink { local_fd: i32 },
    Close { remote_fd: u64 },
}

impl View for LocalFileOp {
    type V = LocalFileOpView;

    open spec fn view(&self) -> LocalFileOpView {
        match self {
            LocalFileOp::Locate { remote_fd, random } => LocalFileOpView::Locate {
                remote_fd: *remote_fd,
                random: random@,
            },
            LocalFileOp::Open { remote_fd, path } => LocalFileOpView::Open {
                remote_fd: *remote_fd,
                path: path@,
            },
            LocalFileOp::Unlink { local_fd } => LocalFileOpView::Unlink { local_fd: *local_fd },
            LocalFileOp::Close { remote_fd } => LocalFileOpView::Close { remote_fd: *remote_fd },
        }
    }
}

impl LocalFileOpView {
    /// The events that the operation can go on with.
    pub open spec fn expects(self, event: Event) -> bool {
        match self {
            LocalFileOpView::Locate { .. } => event is TempDirFound,
            LocalFileOpView::Open { .. } => event is LocalFileCreated,
            LocalFileOpView::Unlink { .. } => event is LocalFileUnlinked,
            LocalFileOpView::Close { .. } => event is CloseSent,
        }
    }

    /// The first step, with the random part that was drawn.
    pub open spec fn start(remote_fd: u64, random: Seq<char>) -> StepView<LocalFileOpView, i32> {
        StepView::Wait(LocalFileOpView::Locate { remote_fd, random }, ActionView::FindTempDir)
    }

    /// The step that opens the local file.
    pub open spec fn open_local(remote_fd: u64, path: Seq<u8>) -> StepView<LocalFileOpView, i32> {
        StepView::Wait(
            LocalFileOpView::Open { remote_fd, path },
            ActionView::CreateLocalFile { path },
        )
    }

    /// The step after an event. A local file that cannot be opened makes the
    /// operation fail, once the remote file was closed; one that can is taken
    /// out of its directory, and its descriptor is the result.
    pub open spec fn next(self, event: Event) -> StepView<LocalFileOpView, i32>
        recommends
            self.expects(event),
    {
        match (self, event) {
            (LocalFileOpView::Locate { remote_fd, random }, Event::TempDirFound(temp_dir)) => {
                let path = local_file_bytes(temp_dir@, remote_fd, random);
                if path.contains(0u8) {
                    StepView::Done(DetourView::Error(HookError::Null))
                } else {
                    Self::open_local(remote_fd, path)
                }
            },
            (LocalFileOpView::Open { remote_fd, path }, Event::LocalFileCreated(local_fd)) => {
                if local_fd == -1 {
                    StepView::Wait(
                        LocalFileOpView::Close { remote_fd },
                        ActionView::CloseFile(CloseFileRequest { fd: remote_fd }),
                    )
                } else {
                    StepView::Wait(
                        LocalFileOpView::Unlink { local_fd },
                        ActionView::UnlinkLocalFile { path },
                    )
                }
            },
            (LocalFileOpView::Unlink { local_fd }, Event::LocalFileUnlinked) => StepView::Done(
                DetourView::Success(local_fd),
            ),
            (LocalFileOpView::Close { remote_fd }, Event::CloseSent(sent)) => match sent {
                Ok(()) => StepView::Done(
                    DetourView::Error(HookError::LocalFileCreation(remote_fd)),
                ),
                Err(error) => StepView::Done(DetourView::Error(error)),
            },
            _ => arbitrary(),
        }
    }
}

/// Makes a temporary local file to get a descriptor that the local program can
/// hold in place of the agent's.
pub fn create_local_fake_file(remote_fd: u64) -> (step: Step<LocalFileOp, i32>)
    ensures
        exists|random: Seq<char>| #[trigger]
            is_random_part(random) && step@ == LocalFileOpView::start(remote_fd, random),
{
    let random = random_text(RANDOM_LENGTH);
    assert(is_random_part(random@));
    Step::Wait(LocalFileOp::Locate { remote_fd, random }, Action::FindTempDir)
}

impl LocalFileOp {
    /// Whether the operation can go on with an event.
    pub fn expects(&self, event: &Event) -> (expected: bool)
        ensures
            expected == self@.expects(*event),
    {
        match (self, event) {
            (LocalFileOp::Locate { .. }, Event::TempDirFound(_)) => true,
            (LocalFileOp::Open { .. }, Event::LocalFileCreated(_)) => true,
            (LocalFileOp::Unlink { .. }, Event::LocalFileUnlinked) => true,
            (LocalFileOp::Close { .. }, Event::CloseSent(_)) => true,
            _ => false,
        }
    }

    /// Goes on with what came of the last action.
    pub fn resume(self, event: Event) -> (step: Step<LocalFileOp, i32>)
        requires
            self@.expects(event),
        ensures
            step@ == self@.next(event),
            self@ matches LocalFileOpView::Locate { remote_fd, random } ==> event
                matches Event::TempDirFound(temp_dir) ==> is_random_part(random) && valid_utf8(
                temp_dir@,
            ) && !temp_dir@.contains(0u8) ==> step@ == LocalFileOpView::open_local(
                remote_fd,
                followed_by(temp_dir@, local_file_name(remote_fd, random)),
            ),
    {
        match (self, event) {
            (LocalFileOp::Locate { remote_fd, random }, Event::TempDirFound(temp_dir)) => {
                proof {
                    if is_random_part(random@) && valid_utf8(temp_dir@) && !temp_dir@.contains(
                        0u8,
                    ) {
                        local_file_path_has_no_zero(temp_dir@, remote_fd, random@);
                    }
                }
                let text = local_file_path(&temp_dir, remote_fd, random.as_str());
                match system_path(text.as_str()) {
                    Ok(path) => {
                        let opened = path.clone();
                        assert(opened@ =~= path@);
                        Step::Wait(
                            LocalFileOp::Open { remote_fd, path },
                            Action::CreateLocalFile { path: opened },
                        )
                    },
                    Err(error) => Step::Done(Detour::Error(error)),
                }
            },
            (LocalFileOp::Open { remote_fd, path }, Event::LocalFileCreated(local_fd)) => {
                if local_fd == -1 {
                    Step::Wait(
                        LocalFileOp::Close { remote_fd },
                        Action::CloseFile(close_remote_file_on_failure(remote_fd)),
                    )
                } else {
                    Step::Wait(
                        LocalFileOp::Unlink { local_fd },
                        Action::UnlinkLocalFile { path },
                    )
                }
            },
            (LocalFileOp::Unlink { local_fd }, Event::LocalFileUnlinked) => Step::Done(
                Detour::Success(local_fd),
            ),
            (LocalFileOp::Close { remote_fd }, Event::CloseSent(sent)) => match sent {
                Ok(()) => Step::Done(Detour::Error(HookError::LocalFileCreation(remote_fd))),
                Err(error) => Step::Done(Detour::Error(error)),
            },
            _ => vstd::pervasive::unreached(),
        }
    }
}

} // verus!
