//! Management requests that the desktop sends, and the directory lists that come back.
use vstd::prelude::*;
use vstd::string::*;
use vstd::utf8::*;

use crate::bytes::{slice_bytes, text_from_utf8};
use crate::local_commands::management_request::{
    build_local_management_request_frame, envelope, LocalIpcFrame, LocalIpcRequestId,
    LocalManagementRequestBuildError,
};

verus! {

/// Why a management request could not be composed.
#[derive(PartialEq, Eq, Debug)]
pub enum LocalManagementClientError<E> {
    /// The command could not be encoded.
    Bridge(E),
    /// The envelope refused the encoded body.
    Local(LocalManagementRequestBuildError),
    /// The requested file-list path is not a canonical relative remote path.
    InvalidFilePath,
}

/// Encodes one typed bridge command and wraps it in the envelope of a management request. This
/// sends nothing, and a request that was built is not thereby authorized.
pub fn build_bridge_management_request<C, E, F>(
    request_id: LocalIpcRequestId,
    command: &C,
    encode: F,
) -> (frame: Result<LocalIpcFrame, LocalManagementClientError<E>>) where
    F: FnOnce(&C) -> Result<Vec<u8>, E>,

    requires
        call_requires(encode, (command,)),
    ensures
        match frame {
            Ok(frame) => exists|body: Vec<u8>|
                {
                    &&& #[trigger] call_ensures(encode, (command,), Ok::<Vec<u8>, E>(body))
                    &&& body@.len() <= u32::MAX
                    &&& frame.request_id == request_id
                    &&& frame.payload@ == envelope(body@)
                },
            Err(LocalManagementClientError::Bridge(error)) => call_ensures(
                encode,
                (command,),
                Err::<Vec<u8>, E>(error),
            ),
            Err(LocalManagementClientError::Local(_)) => exists|body: Vec<u8>| #[trigger]
                call_ensures(encode, (command,), Ok::<Vec<u8>, E>(body)) && body@.len() > u32::MAX,
            Err(LocalManagementClientError::InvalidFilePath) => false,
        },
{
    let body = match encode(command) {
        Ok(body) => {
            assert(call_ensures(encode, (command,), Ok::<Vec<u8>, E>(body)));
            body
        },
        Err(error) => {
            return Err(LocalManagementClientError::Bridge(error));
        },
    };
    match build_local_management_request_frame(request_id, body.as_slice()) {
        Ok(frame) => Ok(frame),
        Err(error) => Err(LocalManagementClientError::Local(error)),
    }
}

/// Builds the only live management request of the desktop: a file list. A path that is not a
/// canonical relative one is refused before anything is encoded.
pub fn build_file_list_management_request<P, PE, E, G, F>(
    request_id: LocalIpcRequestId,
    path: &str,
    parse_path: G,
    encode_file_list: F,
) -> (frame: Result<LocalIpcFrame, LocalManagementClientError<E>>) where
    G: FnOnce(&str) -> Result<P, PE>,
    F: FnOnce(&P) -> Result<Vec<u8>, E>,

    requires
        call_requires(parse_path, (path,)),
        forall|parsed: P|
            call_ensures(parse_path, (path,), Ok::<P, PE>(parsed)) ==> #[trigger] call_requires(
                encode_file_list,
                (&parsed,),
            ),
    ensures
        match frame {
            Ok(frame) => exists|parsed: P, body: Vec<u8>|
                {
                    &&& call_ensures(parse_path, (path,), Ok::<P, PE>(parsed))
                    &&& #[trigger] call_ensures(
                        encode_file_list,
                        (&parsed,),
                        Ok::<Vec<u8>, E>(body),
                    )
                    &&& body@.len() <= u32::MAX
                    &&& frame.request_id == request_id
                    &&& frame.payload@ == envelope(body@)
                },
            Err(LocalManagementClientError::InvalidFilePath) => exists|error: PE|
                #[trigger] call_ensures(parse_path, (path,), Err::<P, PE>(error)),
            Err(LocalManagementClientError::Bridge(error)) => exists|parsed: P|
                call_ensures(parse_path, (path,), Ok::<P, PE>(parsed)) && #[trigger] call_ensures(
                    encode_file_list,
                    (&parsed,),
                    Err::<Vec<u8>, E>(error),
                ),
            Err(LocalManagementClientError::Local(_)) => exists|parsed: P, body: Vec<u8>|
                {
                    &&& call_ensures(parse_path, (path,), Ok::<P, PE>(parsed))
                    &&& #[trigger] call_ensures(
                        encode_file_list,
                        (&parsed,),
                        Ok::<Vec<u8>, E>(body),
                    )
                    &&& body@.len() > u32::MAX
                },
        },
{
    let parsed = match parse_path(path) {
        Ok(parsed) => {
            assert(call_ensures(parse_path, (path,), Ok::<P, PE>(parsed)));
            parsed
        },
        Err(error) => {
            assert(call_ensures(parse_path, (path,), Err::<P, PE>(error)));
            return Err(LocalManagementClientError::InvalidFilePath);
        },
    };
    build_bridge_management_request(request_id, &parsed, encode_file_list)
}

#[derive(Clone, Copy, PartialEq, Eq, Structural, Debug)]
pub enum LocalFileListEntryKind {
    RegularFile,
    Directory,
    SymbolicLink,
    Other,
}

/// One entry of a directory list.
#[derive(PartialEq, Eq, Debug)]
pub struct LocalFileListEntry {
    name: String,
    kind: LocalFileListEntryKind,
}

/// What a [`LocalFileListEntry`] says.
pub struct EntryView {
    pub name: Seq<char>,
    pub kind: LocalFileListEntryKind,
}

impl View for LocalFileListEntry {
    type V = EntryView;

    closed spec fn view(&self) -> EntryView {
        EntryView { name: self.name@, kind: self.kind }
    }
}

impl EntryView {
    /// The entry as shown.
    pub open spec fn shown(self) -> Seq<char> {
        match self.kind {
            LocalFileListEntryKind::RegularFile => self.name,
            LocalFileListEntryKind::Directory => self.name + "/"@,
            LocalFileListEntryKind::SymbolicLink => self.name + " [symlink]"@,
            LocalFileListEntryKind::Other => self.name + " [other]"@,
        }
    }
}

impl LocalFileListEntry {
    pub fn display_text(&self) -> (text: String)
        ensures
            text@ == self@.shown(),
    {
        let mut text = self.name.clone();
        match self.kind {
            LocalFileListEntryKind::RegularFile => {},
            LocalFileListEntryKind::Directory => text.append("/"),
            LocalFileListEntryKind::SymbolicLink => text.append(" [symlink]"),
            LocalFileListEntryKind::Other => text.append(" [other]"),
        }
        text
    }
}

/// Why the body of a directory list was refused.
#[derive(Clone, Copy, PartialEq, Eq, Structural, Debug)]
pub enum LocalFileListDecodeError {
    MissingResult,
    UnexpectedResult,
    EntryCount,
    EntryType,
    EntryLength,
    EntryUtf8,
    TrailingBytes,
}

/// Bytes of the status before the body.
pub const STATUS_PREFIX_LENGTH: usize = 2;

/// The first byte of a body that is a directory list.
pub const DIRECTORY_ENTRIES_RESULT: u8 = 2;

/// A number in two bytes, most significant first.
pub open spec fn two_bytes(value: nat) -> Seq<u8> {
    seq![(value / 0x100 % 0x100) as u8, (value % 0x100) as u8]
}

/// The number that two bytes stand for.
pub open spec fn pair_value(high: u8, low: u8) -> nat {
    (high as nat) * 0x100 + low as nat
}

/// The byte of a kind.
pub open spec fn kind_byte(kind: LocalFileListEntryKind) -> u8 {
    match kind {
        LocalFileListEntryKind::RegularFile => 1,
        LocalFileListEntryKind::Directory => 2,
        LocalFileListEntryKind::SymbolicLink => 3,
        LocalFileListEntryKind::Other => 4,
    }
}

/// The kind of a byte.
pub open spec fn byte_kind(byte: u8) -> Option<LocalFileListEntryKind> {
    if byte == 1 {
        Some(LocalFileListEntryKind::RegularFile)
    } else if byte == 2 {
        Some(LocalFileListEntryKind::Directory)
    } else if byte == 3 {
        Some(LocalFileListEntryKind::SymbolicLink)
    } else if byte == 4 {
        Some(LocalFileListEntryKind::Other)
    } else {
        None
    }
}

/// An entry in bytes: its kind, the length of its name, its name.
pub open spec fn entry_bytes(entry: EntryView) -> Seq<u8> {
    seq![kind_byte(entry.kind)] + two_bytes(encode_utf8(entry.name).len()) + encode_utf8(entry.name)
}

/// Several entries in bytes, one after the other.
pub open spec fn entries_bytes(entries: Seq<EntryView>) -> Seq<u8>
    decreases entries.len(),
{
    if entries.len() == 0 {
        Seq::empty()
    } else {
        entry_bytes(entries[0]) + entries_bytes(entries.skip(1))
    }
}

/// A directory list in bytes: its mark, the number of entries, the entries.
pub open spec fn list_bytes(entries: Seq<EntryView>) -> Seq<u8> {
    seq![DIRECTORY_ENTRIES_RESULT] + two_bytes(entries.len()) + entries_bytes(entries)
}

/// An entry that can be written: it has a name, and the name's length fits.
pub open spec fn is_entry(entry: EntryView) -> bool {
    1 <= encode_utf8(entry.name).len() <= 0xffff
}

/// The entry at the start of some bytes, or what is wrong with them.
pub open spec fn first_entry(bytes: Seq<u8>) -> Result<EntryView, LocalFileListDecodeError> {
    if bytes.len() == 0 || byte_kind(bytes[0]) is None {
        Err(LocalFileListDecodeError::EntryType)
    } else if bytes.len() < 3 || bytes.len() < 3 + pair_value(bytes[1], bytes[2]) {
        Err(LocalFileListDecodeError::EntryLength)
    } else {
        let name = bytes.subrange(3, 3 + pair_value(bytes[1], bytes[2]) as int);
        if !valid_utf8(name) {
            Err(LocalFileListDecodeError::EntryUtf8)
        } else if name.len() == 0 {
            Err(LocalFileListDecodeError::EntryLength)
        } else {
            Ok(EntryView { name: decode_utf8(name), kind: byte_kind(bytes[0])->0 })
        }
    }
}

/// A number of entries and nothing more, or what is wrong with the bytes first.
pub open spec fn all_entries(bytes: Seq<u8>, count: nat) -> Result<
    Seq<EntryView>,
    LocalFileListDecodeError,
>
    decreases count,
{
    if count == 0 {
        if bytes.len() == 0 {
            Ok(Seq::empty())
        } else {
            Err(LocalFileListDecodeError::TrailingBytes)
        }
    } else {
        match first_entry(bytes) {
            Err(error) => Err(error),
            Ok(entry) => match all_entries(
                bytes.skip(3 + pair_value(bytes[1], bytes[2]) as int),
                (count - 1) as nat,
            ) {
                Err(error) => Err(error),
                Ok(rest) => Ok(seq![entry] + rest),
            },
        }
    }
}

/// The list that a response holds after its status, or what is wrong with it first.
pub open spec fn listed(payload: Seq<u8>, max_directory_entries: nat) -> Result<
    Seq<EntryView>,
    LocalFileListDecodeError,
> {
    if payload.len() < STATUS_PREFIX_LENGTH {
        Err(LocalFileListDecodeError::MissingResult)
    } else {
        let body = payload.skip(STATUS_PREFIX_LENGTH as int);
        if body.len() == 0 || body[0] != DIRECTORY_ENTRIES_RESULT {
            Err(LocalFileListDecodeError::UnexpectedResult)
        } else if body.len() < 3 || pair_value(body[1], body[2]) > max_directory_entries {
            Err(LocalFileListDecodeError::EntryCount)
        } else {
            all_entries(body.skip(3), pair_value(body[1], body[2]))
        }
    }
}

/// What a list of entries says.
pub open spec fn entry_views(entries: Seq<LocalFileListEntry>) -> Seq<EntryView> {
    Seq::new(entries.len(), |i: int| entries[i]@)
}

/// Decodes the body after the common two-byte success status. The limit is that of the file
/// service.
pub fn decode_file_list_success_body(payload: &[u8], max_directory_entries: usize) -> (entries: Result<
    Vec<LocalFileListEntry>,
    LocalFileListDecodeError,
>)
    ensures
        match entries {
            Ok(entries) => listed(payload@, max_directory_entries as nat) == Ok::<
                Seq<EntryView>,
                LocalFileListDecodeError,
            >(entry_views(entries@)),
            Err(error) => listed(payload@, max_directory_entries as nat) == Err::<
                Seq<EntryView>,
                LocalFileListDecodeError,
            >(error),
        },
{
    let length: usize = payload.len();
    if length < 2 {
        return Err(LocalFileListDecodeError::MissingResult);
    }
    if length < 3 || payload[2] != DIRECTORY_ENTRIES_RESULT {
        return Err(LocalFileListDecodeError::UnexpectedResult);
    }
    if length < 5 {
        return Err(LocalFileListDecodeError::EntryCount);
    }
    let count: usize = payload[3] as usize * 0x100 + payload[4] as usize;
    if count > max_directory_entries {
        return Err(LocalFileListDecodeError::EntryCount);
    }
    let ghost whole = all_entries(payload@.skip(5), count as nat);
    assert(payload@.skip(2).skip(3) == payload@.skip(5));
    assert(listed(payload@, max_directory_entries as nat) == whole);
    let mut cursor: usize = 5;
    let mut entries: Vec<LocalFileListEntry> = Vec::new();
    let mut done: usize = 0;
    assert(whole is Ok ==> entry_views(entries@) + whole->Ok_0 == whole->Ok_0);
    while done < count
        invariant
            done <= count <= 0xffff,
            5 <= cursor <= length,
            length == payload@.len(),
            whole == listed(payload@, max_directory_entries as nat),
            match all_entries(payload@.skip(cursor as int), (count - done) as nat) {
                Ok(rest) => whole == Ok::<Seq<EntryView>, LocalFileListDecodeError>(
                    entry_views(entries@) + rest,
                ),
                Err(error) => whole == Err::<Seq<EntryView>, LocalFileListDecodeError>(error),
            },
        decreases count - done,
    {
        let ghost remaining = payload@.skip(cursor as int);
        if cursor >= length {
            return Err(LocalFileListDecodeError::EntryType);
        }
        let kind = match payload[cursor] {
            1 => LocalFileListEntryKind::RegularFile,
            2 => LocalFileListEntryKind::Directory,
            3 => LocalFileListEntryKind::SymbolicLink,
            4 => LocalFileListEntryKind::Other,
            _ => {
                return Err(LocalFileListDecodeError::EntryType);
            },
        };
        if length - cursor < 3 {
            return Err(LocalFileListDecodeError::EntryLength);
        }
        let name_len: usize = payload[cursor + 1] as usize * 0x100 + payload[cursor + 2] as usize;
        if length - cursor - 3 < name_len {
            return Err(LocalFileListDecodeError::EntryLength);
        }
        let name_bytes = slice_bytes(payload, cursor + 3, cursor + 3 + name_len);
        assert(name_bytes@ == remaining.subrange(3, 3 + name_len));
        let name = match text_from_utf8(name_bytes) {
            Some(name) => name,
            None => {
                return Err(LocalFileListDecodeError::EntryUtf8);
            },
        };
        if name_len == 0 {
            return Err(LocalFileListDecodeError::EntryLength);
        }
        proof {
            encode_utf8_decode_utf8(name@);
            assert(remaining.skip(3 + name_len as int) == payload@.skip(cursor + 3 + name_len));
        }
        let entry = LocalFileListEntry { name, kind };
        assert(entry_views(entries@.push(entry)) == entry_views(entries@).push(entry@));
        proof {
            let rest = all_entries(
                payload@.skip(cursor + 3 + name_len),
                (count - done - 1) as nat,
            );
            if rest is Ok {
                assert(entry_views(entries@) + (seq![entry@] + rest->Ok_0) == entry_views(
                    entries@,
                ).push(entry@) + rest->Ok_0);
            }
        }
        cursor = cursor + 3 + name_len;
        entries.push(entry);
        done = done + 1;
    }
    if cursor != length {
        return Err(LocalFileListDecodeError::TrailingBytes);
    }
    assert(entry_views(entries@) + Seq::<EntryView>::empty() == entry_views(entries@));
    Ok(entries)
}

proof fn lemma_two_bytes_value(value: nat)
    requires
        value <= 0xffff,
    ensures
        pair_value(two_bytes(value)[0], two_bytes(value)[1]) == value,
{
}

proof fn lemma_entries_are_read(entries: Seq<EntryView>)
    requires
        forall|i: int| 0 <= i < entries.len() ==> is_entry(#[trigger] entries[i]),
    ensures
        all_entries(entries_bytes(entries), entries.len()) == Ok::<
            Seq<EntryView>,
            LocalFileListDecodeError,
        >(entries),
    decreases entries.len(),
{
    if entries.len() == 0 {
        assert(entries == Seq::<EntryView>::empty());
    } else {
        let entry = entries[0];
        let name = encode_utf8(entry.name);
        let bytes = entries_bytes(entries);
        let rest = entries.skip(1);
        assert forall|i: int| 0 <= i < rest.len() implies is_entry(#[trigger] rest[i]) by {
            assert(rest[i] == entries[i + 1]);
        }
        lemma_entries_are_read(rest);
        lemma_two_bytes_value(name.len());
        assert(bytes[0] == kind_byte(entry.kind));
        assert(bytes[1] == two_bytes(name.len())[0]);
        assert(bytes[2] == two_bytes(name.len())[1]);
        assert(bytes.subrange(3, 3 + name.len() as int) == name);
        assert(bytes.skip(3 + name.len() as int) == entries_bytes(rest));
        encode_utf8_valid_utf8(entry.name);
        encode_utf8_decode_utf8(entry.name);
        assert(first_entry(bytes) == Ok::<EntryView, LocalFileListDecodeError>(entry));
        assert(seq![entry] + rest == entries);
    }
}

/// Every list that fits the format and the limit is read back from its bytes, whatever the status
/// before it.
pub proof fn written_list_is_read_back(
    status: Seq<u8>,
    entries: Seq<EntryView>,
    max_directory_entries: nat,
)
    requires
        status.len() == STATUS_PREFIX_LENGTH,
        entries.len() <= max_directory_entries,
        entries.len() <= 0xffff,
        forall|i: int| 0 <= i < entries.len() ==> is_entry(#[trigger] entries[i]),
    ensures
        listed(status + list_bytes(entries), max_directory_entries) == Ok::<
            Seq<EntryView>,
            LocalFileListDecodeError,
        >(entries),
{
    let payload = status + list_bytes(entries);
    lemma_entries_are_read(entries);
    lemma_two_bytes_value(entries.len());
    assert(payload.skip(STATUS_PREFIX_LENGTH as int) == list_bytes(entries));
    assert(list_bytes(entries)[1] == two_bytes(entries.len())[0]);
    assert(list_bytes(entries)[2] == two_bytes(entries.len())[1]);
    assert(list_bytes(entries).skip(3) == entries_bytes(entries));
}

proof fn lemma_read_entries_were_written(bytes: Seq<u8>, count: nat)
    requires
        all_entries(bytes, count) is Ok,
    ensures
        all_entries(bytes, count)->Ok_0.len() == count,
        bytes == entries_bytes(all_entries(bytes, count)->Ok_0),
        forall|i: int|
            0 <= i < count ==> is_entry(#[trigger] all_entries(bytes, count)->Ok_0[i]),
    decreases count,
{
    let entries = all_entries(bytes, count)->Ok_0;
    if count == 0 {
        assert(bytes == Seq::<u8>::empty());
    } else {
        let length = pair_value(bytes[1], bytes[2]);
        let name = bytes.subrange(3, 3 + length as int);
        let rest = bytes.skip(3 + length as int);
        lemma_read_entries_were_written(rest, (count - 1) as nat);
        let entry = first_entry(bytes)->Ok_0;
        assert(entries[0] == entry);
        assert(entries.skip(1) == all_entries(rest, (count - 1) as nat)->Ok_0);
        decode_utf8_encode_utf8(name);
        assert(two_bytes(length) == seq![bytes[1], bytes[2]]);
        assert(bytes == entry_bytes(entry) + rest);
        assert forall|i: int| 0 <= i < count implies is_entry(#[trigger] entries[i]) by {
            if i > 0 {
                assert(entries[i] == entries.skip(1)[i - 1]);
            }
        }
    }
}

/// Nothing but a written list within the limit is read: the bytes after the status are exactly
/// those of the entries, and every entry fits the format, so no name is empty.
pub proof fn read_list_was_written(payload: Seq<u8>, max_directory_entries: nat)
    requires
        listed(payload, max_directory_entries) is Ok,
    ensures
        ({
            let entries = listed(payload, max_directory_entries)->Ok_0;
            &&& entries.len() <= max_directory_entries
            &&& payload.skip(STATUS_PREFIX_LENGTH as int) == list_bytes(entries)
            &&& forall|i: int|
                0 <= i < entries.len() ==> is_entry(#[trigger] entries[i])
                    && entries[i].name.len() > 0
        }),
{
    let body = payload.skip(STATUS_PREFIX_LENGTH as int);
    let count = pair_value(body[1], body[2]);
    lemma_read_entries_were_written(body.skip(3), count);
    assert(two_bytes(count) == seq![body[1], body[2]]);
    assert(body == list_bytes(listed(payload, max_directory_entries)->Ok_0));
}

/// The errors that come before the entries never come from the entries.
pub proof fn lemma_entry_errors(payload: Seq<u8>, max_directory_entries: nat)
    ensures
        payload.len() >= 5 && payload[2] == DIRECTORY_ENTRIES_RESULT ==> (listed(
            payload,
            max_directory_entries,
        ) matches Err(error) ==> error != LocalFileListDecodeError::MissingResult && error
            != LocalFileListDecodeError::UnexpectedResult),
{
    if payload.len() >= 5 {
        let body = payload.skip(STATUS_PREFIX_LENGTH as int);
        lemma_entries_errors(body.skip(3), pair_value(body[1], body[2]));
    }
}

proof fn lemma_entries_errors(bytes: Seq<u8>, count: nat)
    ensures
        all_entries(bytes, count) matches Err(error) ==> error
            != LocalFileListDecodeError::MissingResult && error
            != LocalFileListDecodeError::UnexpectedResult && error
            != LocalFileListDecodeError::EntryCount,
    decreases count,
{
    if count > 0 && first_entry(bytes) is Ok {
        lemma_entries_errors(
            bytes.skip(3 + pair_value(bytes[1], bytes[2]) as int),
            (count - 1) as nat,
        );
    }
}

/// Anything behind the entries is refused.
pub proof fn trailing_bytes_are_refused(
    status: Seq<u8>,
    entries: Seq<EntryView>,
    more: Seq<u8>,
    max_directory_entries: nat,
)
    requires
        status.len() == 2,
        entries.len() <= max_directory_entries,
        entries.len() <= 0xffff,
        forall|i: int| 0 <= i < entries.len() ==> is_entry(#[trigger] entries[i]),
        more.len() > 0,
    ensures
        listed(status + list_bytes(entries) + more, max_directory_entries) == Err::<
            Seq<EntryView>,
            _,
        >(LocalFileListDecodeError::TrailingBytes),
{
    let payload = status + list_bytes(entries) + more;
    lemma_entries_with_more(entries, more);
    lemma_two_bytes_value(entries.len());
    let body = payload.skip(STATUS_PREFIX_LENGTH as int);
    assert(body =~= list_bytes(entries) + more);
    assert(body[1] == two_bytes(entries.len())[0]);
    assert(body[2] == two_bytes(entries.len())[1]);
    assert(body.skip(3) =~= entries_bytes(entries) + more);
}

proof fn lemma_entries_with_more(entries: Seq<EntryView>, more: Seq<u8>)
    requires
        forall|i: int| 0 <= i < entries.len() ==> is_entry(#[trigger] entries[i]),
        more.len() > 0,
    ensures
        all_entries(entries_bytes(entries) + more, entries.len()) == Err::<Seq<EntryView>, _>(
            LocalFileListDecodeError::TrailingBytes,
        ),
    decreases entries.len(),
{
    if entries.len() > 0 {
        let entry = entries[0];
        let name = encode_utf8(entry.name);
        let bytes = entries_bytes(entries) + more;
        let rest = entries.skip(1);
        assert forall|i: int| 0 <= i < rest.len() implies is_entry(#[trigger] rest[i]) by {
            assert(rest[i] == entries[i + 1]);
        }
        lemma_entries_with_more(rest, more);
        lemma_two_bytes_value(name.len());
        assert(bytes[0] == kind_byte(entry.kind));
        assert(bytes[1] == two_bytes(name.len())[0]);
        assert(bytes[2] == two_bytes(name.len())[1]);
        assert(bytes.subrange(3, 3 + name.len() as int) =~= name);
        assert(bytes.skip(3 + name.len() as int) =~= entries_bytes(rest) + more);
        encode_utf8_valid_utf8(entry.name);
    }
}

} // verus!
