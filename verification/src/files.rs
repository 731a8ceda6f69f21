//! The file manager: content-addressed blobs with hashing on upload, the
//! pending-to-available lifecycle, and hierarchical storage keys.  The
//! byte streams themselves flow outside the library; digests, keys, state
//! transitions and the update guards are computed and proved here.

use vstd::prelude::*;

use crate::builder::{column, pred_ok, pred_sql, pred_vals, Expression, Predicate};
use crate::error::{Error, ErrorKind};
use crate::models::{event_kind_code, file_status_code, EventKind, FileStatus, Instant, JSON};
use crate::objects::{file_columns_spec, file_is_valid, file_row_values, is_zero_file_row, File};
use crate::query::{placeholder, quoted, RawQuery};
use crate::text::{dec_u64, hex_digit_char, push_u64_decimal, str_chars};
use crate::statement::{names_sql, row_names, row_values, set_sql, values_sql};
use crate::store::{
    event_columns_suffix, event_insert_query, event_row, object_delete_query, row_without,
};
use crate::value::Value;

verus! {

/// How long a pending upload may settle before it can be collected, in
/// seconds.
pub const UPLOAD_TTL_SECS: i64 = 60;

/// What the storage backend reports of a finished upload.
#[derive(Clone, Debug)]
pub struct UploadResult {
    pub size: u64,
    pub md5: String,
    pub sha3_224: String,
}

/// The hexadecimal rendering the hashers use: each byte as `{:x}`, so a
/// byte below sixteen yields a single digit.
pub open spec fn hex_of(bytes: Seq<u8>) -> Seq<char>
    decreases bytes.len(),
{
    if bytes.len() == 0 {
        Seq::<char>::empty()
    } else {
        hex_of(bytes.drop_last()) + byte_hex(bytes.last() as int)
    }
}

/// One byte in `{:x}` form: no leading zero.
pub open spec fn byte_hex(b: int) -> Seq<char> {
    if b < 16 {
        seq![hex_digit_char(b)]
    } else {
        seq![hex_digit_char(b / 16), hex_digit_char(b % 16)]
    }
}

fn hex_digit_exec(d: u8) -> (r: char)
    requires
        d < 16,
    ensures
        r == hex_digit_char(d as int),
{
    match d {
        0 => '0',
        1 => '1',
        2 => '2',
        3 => '3',
        4 => '4',
        5 => '5',
        6 => '6',
        7 => '7',
        8 => '8',
        9 => '9',
        10 => 'a',
        11 => 'b',
        12 => 'c',
        13 => 'd',
        14 => 'e',
        _ => 'f',
    }
}

/// Renders bytes as the hashers' hexadecimal text.
pub fn to_hex(bytes: Vec<u8>) -> (r: String)
    ensures
        r@ == hex_of(bytes@),
{
    let mut s = String::new();
    let mut i: usize = 0;
    while i < bytes.len()
        invariant
            i <= bytes@.len(),
            s@ == hex_of(bytes@.take(i as int)),
        decreases bytes@.len() - i,
    {
        let b = bytes[i];
        if b < 16 {
            let c = hex_digit_exec(b);
            s.push(c);
        } else {
            let hi = hex_digit_exec(b / 16);
            let lo = hex_digit_exec(b % 16);
            s.push(hi);
            s.push(lo);
        }
        proof {
            assert(bytes@.take(i as int + 1).drop_last() =~= bytes@.take(i as int));
            assert(bytes@.take(i as int + 1).last() == bytes@[i as int]);
            assert(s@ =~= hex_of(bytes@.take(i as int + 1)));
        }
        i += 1;
    }
    proof {
        assert(bytes@.take(bytes@.len() as int) =~= bytes@);
    }
    s
}

/// The MD5 digest of a byte sequence; its value is a function of the
/// bytes alone.
pub uninterp spec fn md5_of(bytes: Seq<u8>) -> Seq<u8>;

/// The SHA3-224 digest of a byte sequence; its value is a function of
/// the bytes alone.
pub uninterp spec fn sha3_224_of(bytes: Seq<u8>) -> Seq<u8>;

/// Relies on `md5::Md5` (`Digest::digest`): the MD5 digest of the bytes,
/// sixteen bytes long.
#[verifier::external_body]
fn md5_digest(data: &Vec<u8>) -> (r: Vec<u8>)
    ensures
        r@ == md5_of(data@),
        r@.len() == 16,
{
    <md5::Md5 as md5::Digest>::digest(data.as_slice()).to_vec()
}

/// Relies on `sha3::Sha3_224` (`Digest::digest`): the SHA3-224 digest of
/// the bytes, twenty-eight bytes long.
#[verifier::external_body]
fn sha3_224_digest(data: &Vec<u8>) -> (r: Vec<u8>)
    ensures
        r@ == sha3_224_of(data@),
        r@.len() == 28,
{
    <sha3::Sha3_224 as sha3::Digest>::digest(data.as_slice()).to_vec()
}

/// Digests an upload held in memory: its size and both hashes in the
/// hexadecimal form the metadata stores.
pub fn upload_digests(data: &Vec<u8>) -> (r: UploadResult)
    ensures
        r.size == data@.len(),
        r.md5@ == hex_of(md5_of(data@)),
        r.sha3_224@ == hex_of(sha3_224_of(data@)),
{
    let md5 = to_hex(md5_digest(data));
    let sha3_224 = to_hex(sha3_224_digest(data));
    UploadResult { size: data.len() as u64, md5, sha3_224 }
}

/// Relies on `rand::random`: eight bytes drawn from the thread's
/// generator.  Nothing is promised of their values, only of their count.
#[verifier::external_body]
fn random_bytes() -> (r: Vec<u8>)
    ensures
        r@.len() == 8,
{
    rand::random::<[u8; 8]>().to_vec()
}

/// The hierarchical storage key formed from freshly drawn bytes and a
/// timestamp: two hex bytes, a slash, then the rest and the little-endian
/// time bytes — so keys spread over up to `256 * 256` directories.
pub open spec fn key_of(rand: Seq<u8>, time: Seq<u8>) -> Seq<char> {
    hex_of(rand.take(2)) + seq!['/'] + hex_of(rand.skip(2)) + hex_of(time)
}

/// Formats a storage key from its random and time bytes.
pub fn format_key(rand: Vec<u8>, time: Vec<u8>) -> (r: String)
    requires
        rand@.len() >= 2,
    ensures
        r@ == key_of(rand@, time@),
{
    let ghost rv = rand@;
    let mut rand = rand;
    let rest = rand.split_off(2);
    proof {
        assert(rand@ =~= rv.take(2));
        assert(rest@ =~= rv.skip(2));
    }
    let mut s = to_hex(rand);
    s.push('/');
    let rest_hex = to_hex(rest);
    s.push_str(rest_hex.as_str());
    let time_hex = to_hex(time);
    s.push_str(time_hex.as_str());
    proof {
        assert(s@ =~= key_of(rv, time@));
    }
    s
}

/// Draws a fresh hierarchical storage key: eight random bytes, then the
/// little-endian bytes of the clock in whole seconds.  Which values are
/// drawn depends on chance and time; the shape — two hex bytes, the
/// directory slash, the remaining six, the time suffix — does not.
pub fn generate_key() -> (r: String)
    ensures
        exists|rand: Seq<u8>, secs: i64|
            rand.len() == 8 && r@ == #[trigger] key_of(rand, le_bytes_of(secs)),
{
    let rand = random_bytes();
    let now = crate::models::Instant::now();
    let secs = now.secs;
    let time = i64_le_bytes(secs);
    let ghost rv = rand@;
    let r = format_key(rand, time);
    proof {
        assert(rv.len() == 8 && r@ == key_of(rv, le_bytes_of(secs)));
    }
    r
}

/// The little-endian bytes of a signed 64-bit value: the `i`-th byte is
/// the value shifted right by `8 * i`, masked to a byte.
pub open spec fn le_bytes_of(v: i64) -> Seq<u8> {
    Seq::new(8, |i: int| (((v as u64) >> (8 * i)) & 0xff) as u8)
}

/// Renders a signed 64-bit value as its little-endian bytes.
pub fn i64_le_bytes(v: i64) -> (r: Vec<u8>)
    ensures
        r@ == le_bytes_of(v),
        r@.len() == 8,
        forall|i: int|
            0 <= i < 8 ==> #[trigger] r@[i] == (((v as u64) >> (8 * i)) & 0xff) as u8,
{
    let u = v as u64;
    let mut r: Vec<u8> = Vec::new();
    r.push((u & 0xff) as u8);
    r.push(((u >> 8) & 0xff) as u8);
    r.push(((u >> 16) & 0xff) as u8);
    r.push(((u >> 24) & 0xff) as u8);
    r.push(((u >> 32) & 0xff) as u8);
    r.push(((u >> 40) & 0xff) as u8);
    r.push(((u >> 48) & 0xff) as u8);
    r.push(((u >> 56) & 0xff) as u8);
    proof {
        assert(((v as u64) >> (8 * 0)) & 0xff == (v as u64) & 0xff) by (bit_vector);
        assert forall|i: int| 0 <= i < 8 implies #[trigger] r@[i] == (((v as u64) >> (8 * i))
            & 0xff) as u8 by {
            if i == 0 {
            } else if i == 1 {
            } else if i == 2 {
            } else if i == 3 {
            } else if i == 4 {
            } else if i == 5 {
            } else if i == 6 {
            } else {
            }
        }
        assert(r@ =~= le_bytes_of(v));
    }
    r
}

/// The local path of a stored key: each slash becomes the platform
/// separator (kept as a slash here), under the storage root.  An empty
/// key is refused.
pub fn storage_path(root: &str, key: &str) -> (r: Result<String, Error>)
    ensures
        match r {
            Ok(p) => key@.len() > 0 && p@ == root@ + seq!['/'] + key@,
            Err(e) => key@.len() == 0 && e.spec_kind() == ErrorKind::Storage,
        },
{
    if key.is_empty() {
        return Err(Error::Storage("Key cannot be empty".to_owned()));
    }
    let mut s = root.to_owned();
    s.push('/');
    s.push_str(key);
    proof {
        assert(s@ =~= root@ + seq!['/'] + key@);
    }
    Ok(s)
}

/// Local-filesystem storage: keys resolve to paths under one root
/// directory.  The reads and writes themselves run outside the library.
pub struct LocalStorage {
    path: String,
}

impl LocalStorage {
    /// The root directory all keys live under.
    pub closed spec fn root(&self) -> Seq<char> {
        self.path@
    }

    pub fn new(path: &str) -> (r: Result<LocalStorage, Error>)
        ensures
            match r {
                Ok(s) => s.root() == path@,
                Err(_) => false,
            },
    {
        Ok(LocalStorage { path: path.to_owned() })
    }

    /// Where a key's blob lives; an empty key is refused.
    pub fn load(&self, key: &str) -> (r: Result<String, Error>)
        ensures
            match r {
                Ok(p) => key@.len() > 0 && p@ == self.root() + seq!['/'] + key@,
                Err(e) => key@.len() == 0 && e.spec_kind() == ErrorKind::Storage,
            },
    {
        storage_path(self.path.as_str(), key)
    }
}

/// The storage contract: resolving, uploading and deleting blobs by key.
/// Implementations run outside the library and hand back plain values.
pub trait FileStorage {
    /// The local path a key's blob can be read from.
    fn load(&self, key: &str) -> Result<String, Error>;

    /// Releases a path obtained from `load`.
    fn free(&self, key: &str, path: String);

    /// A fresh hierarchical key.
    fn generate_key(&self) -> Result<String, Error>;

    /// Stores the blob under the key and reports its size and digests.
    fn upload(&self, key: &str, data: &Vec<u8>) -> Result<UploadResult, Error>;

    /// Removes the blob under the key.
    fn delete(&self, key: &str) -> Result<(), Error>;
}

/// What an upload hands the manager besides its bytes.
pub trait FileInfo {
    /// The original file name, when one is known.
    fn name(&self) -> Option<String>;

    /// The size in bytes, when known ahead of the upload.
    fn size(&self) -> Option<u64>;
}

/// The status guard of a file transition: `"status" = $1` bound to the
/// observed status.
pub open spec fn status_fence_sql(status: FileStatus, k: int) -> Seq<char> {
    quoted("status"@) + " = "@ + placeholder(k + 1)
}

/// Builds the fence on an observed file status.
pub fn status_fence(status: FileStatus) -> (r: Predicate)
    ensures
        r is Equal,
        pred_ok(r),
        pred_vals(r) == seq![Value::BigInt((file_status_code(status)) as i64)],
        forall|k: int| #[trigger] pred_sql(r, k) == status_fence_sql(status, k),
{
    proof {
        reveal_strlit("status");
    }
    let r = column("status").equal(Expression::Value(status.into_value()));
    proof {
        assert(pred_vals(r) =~= seq![Value::BigInt((file_status_code(status)) as i64)]);
        assert forall|k: int| #[trigger] pred_sql(r, k) == status_fence_sql(status, k) by {
            assert(pred_sql(r, k) =~= status_fence_sql(status, k));
        }
    }
    r
}

/// A file may be resolved only once it is available; anything else is a
/// `NotFound` of the caller's own making or a pending upload.
pub fn check_loadable(file: &File) -> (r: Result<(), Error>)
    ensures
        match r {
            Ok(_) => file.status == FileStatus::Available,
            Err(e) => file.status != FileStatus::Available && e.spec_kind() == ErrorKind::NotFound,
        },
{
    match file.status {
        FileStatus::Available => Ok(()),
        _ => Err(Error::NotFound("File has invalid status".to_owned())),
    }
}

/// The row of a fresh upload: pending, under a new key, expiring after
/// the settling TTL.
pub fn pending_file_row(key: String, meta: JSON, now: Instant) -> (r: File)
    requires
        now.secs + UPLOAD_TTL_SECS <= i64::MAX,
    ensures
        r.id == 0,
        r.status == FileStatus::Pending,
        r.expire_time == Some(Instant { secs: (now.secs + UPLOAD_TTL_SECS) as i64 }),
        r.path == key,
        r.meta == meta,
{
    File {
        id: 0,
        status: FileStatus::Pending,
        expire_time: Some(now.plus_secs(UPLOAD_TTL_SECS)),
        path: key,
        meta,
    }
}

/// Confirms a settled upload: available, with the expiry cleared.  The
/// caller guards the write with a fence on `Pending`.
pub fn confirm_update(file: File) -> (r: File)
    ensures
        r.id == file.id,
        r.status == FileStatus::Available,
        r.expire_time is None,
        r.path == file.path,
        r.meta == file.meta,
{
    let File { id, status: _, expire_time: _, path, meta } = file;
    File { id, status: FileStatus::Available, expire_time: None, path, meta }
}

/// The deletion decision: a pending upload that may still settle is
/// refused; anything else is re-marked pending with a fresh collection
/// TTL (a pending file keeps its old expiry) before the blob and the row
/// go.
pub fn delete_decision(file: &File, now: Instant) -> (r: Result<Instant, Error>)
    requires
        now.secs + UPLOAD_TTL_SECS <= i64::MAX,
    ensures
        match r {
            Ok(t) => (match (file.status, file.expire_time) {
                (FileStatus::Pending, Some(e)) => !(now.secs < e.secs) && t == e,
                _ => t == Instant { secs: (now.secs + UPLOAD_TTL_SECS) as i64 },
            }),
            Err(er) => (match (file.status, file.expire_time) {
                (FileStatus::Pending, Some(e)) => now.secs < e.secs,
                _ => false,
            }) && er.spec_kind() == ErrorKind::Conflict,
        },
{
    let fresh = now.plus_secs(UPLOAD_TTL_SECS);
    if matches!(file.status, FileStatus::Pending) {
        match &file.expire_time {
            Some(time) => {
                if now.before(*time) {
                    Err(Error::Conflict("Cannot delete not uploaded file".to_owned()))
                } else {
                    Ok(*time)
                }
            },
            None => Ok(fresh),
        }
    } else {
        Ok(fresh)
    }
}

/// The re-marked row a deletion writes before removing the blob.
pub fn deletion_update(file: File, expire: Instant) -> (r: File)
    ensures
        r.id == file.id,
        r.status == FileStatus::Pending,
        r.expire_time == Some(expire),
        r.path == file.path,
        r.meta == file.meta,
{
    let File { id, status: _, expire_time: _, path, meta } = file;
    File { id, status: FileStatus::Pending, expire_time: Some(expire), path, meta }
}


/// A character in a JSON string literal: quote and backslash are
/// escaped, control characters take the `\u00XX` form, and everything
/// else stands for itself.
pub open spec fn escape_char(c: char) -> Seq<char> {
    if c == '"' {
        seq!['\\', '"']
    } else if c == '\\' {
        seq!['\\', '\\']
    } else if (c as u32) < 32 {
        "\\u00"@ + seq![
            hex_digit_char(((c as u32) / 16) as int),
            hex_digit_char(((c as u32) % 16) as int),
        ]
    } else {
        seq![c]
    }
}

/// A whole string escaped for a JSON literal.
pub open spec fn json_escaped(s: Seq<char>) -> Seq<char>
    decreases s.len(),
{
    if s.len() == 0 {
        Seq::<char>::empty()
    } else {
        json_escaped(s.drop_last()) + escape_char(s.last())
    }
}

/// An optional JSON string field: the quoted escaped text, or `null`.
pub open spec fn opt_str_json(o: Option<Seq<char>>) -> Seq<char> {
    match o {
        Some(s) => seq!['"'] + json_escaped(s) + seq!['"'],
        None => "null"@,
    }
}

/// An optional JSON number field: the decimal text, or `null`.
pub open spec fn opt_num_json(o: Option<u64>) -> Seq<char> {
    match o {
        Some(n) => dec_u64(n as int),
        None => "null"@,
    }
}

/// The metadata document of a file row, in the fixed field order
/// `name, size, md5, sha3_224`.
pub open spec fn meta_json(
    name: Seq<char>,
    size: Option<u64>,
    md5: Option<Seq<char>>,
    sha3_224: Option<Seq<char>>,
) -> Seq<char> {
    "{\"name\":\""@ + json_escaped(name) + "\",\"size\":"@ + opt_num_json(size) + ",\"md5\":"@
        + opt_str_json(md5) + ",\"sha3_224\":"@ + opt_str_json(sha3_224) + "}"@
}

/// The view of an optional string.
pub open spec fn opt_view(o: Option<String>) -> Option<Seq<char>> {
    match o {
        Some(s) => Some(s@),
        None => None,
    }
}

/// Appends a string escaped for a JSON literal.
fn push_escaped(out: &mut String, v: &str)
    ensures
        final(out)@ == old(out)@ + json_escaped(v@),
{
    let chars = str_chars(v);
    let mut i: usize = 0;
    while i < chars.len()
        invariant
            i <= chars@.len(),
            chars@ == v@,
            out@ == old(out)@ + json_escaped(v@.take(i as int)),
        decreases chars@.len() - i,
    {
        let c = chars[i];
        if c == '"' {
            out.push('\\');
            out.push('"');
        } else if c == '\\' {
            out.push('\\');
            out.push('\\');
        } else if (c as u32) < 32 {
            let code = c as u32;
            out.push_str("\\u00");
            let hi = hex_digit_exec((code / 16) as u8);
            let lo = hex_digit_exec((code % 16) as u8);
            out.push(hi);
            out.push(lo);
        } else {
            out.push(c);
        }
        proof {
            assert(v@.take(i as int + 1).drop_last() =~= v@.take(i as int));
            assert(v@.take(i as int + 1).last() == v@[i as int]);
            assert(out@ =~= old(out)@ + json_escaped(v@.take(i as int + 1)));
        }
        i += 1;
    }
    proof {
        assert(v@.take(v@.len() as int) =~= v@);
    }
}

/// What a file row's metadata column records: the original name and,
/// once the upload has streamed through the hashers, its size and
/// digests.
#[derive(Clone, Debug)]
pub struct FileMeta {
    pub name: String,
    pub size: Option<u64>,
    pub md5: Option<String>,
    pub sha3_224: Option<String>,
}

impl FileMeta {
    /// Serialises the metadata as its JSON document.
    #[verifier::rlimit(50)]
    #[verifier::spinoff_prover]
    pub fn to_json(&self) -> (r: String)
        ensures
            r@ == meta_json(self.name@, self.size, opt_view(self.md5), opt_view(self.sha3_224)),
    {
        let mut out = "{\"name\":\"".to_owned();
        push_escaped(&mut out, self.name.as_str());
        out.push_str("\",\"size\":");
        match &self.size {
            Some(n) => push_u64_decimal(&mut out, *n),
            None => out.push_str("null"),
        }
        proof {
            assert(out@ =~= "{\"name\":\""@ + json_escaped(self.name@) + "\",\"size\":"@
                + opt_num_json(self.size));
        }
        out.push_str(",\"md5\":");
        match &self.md5 {
            Some(s) => {
                out.push('"');
                push_escaped(&mut out, s.as_str());
                out.push('"');
            },
            None => out.push_str("null"),
        }
        out.push_str(",\"sha3_224\":");
        proof {
            assert(out@ =~= "{\"name\":\""@ + json_escaped(self.name@) + "\",\"size\":"@
                + opt_num_json(self.size) + ",\"md5\":"@ + opt_str_json(opt_view(self.md5))
                + ",\"sha3_224\":"@);
        }
        match &self.sha3_224 {
            Some(s) => {
                out.push('"');
                push_escaped(&mut out, s.as_str());
                out.push('"');
            },
            None => out.push_str("null"),
        }
        out.push_str("}");
        proof {
            assert(out@ =~= meta_json(
                self.name@,
                self.size,
                opt_view(self.md5),
                opt_view(self.sha3_224),
            ));
        }
        out
    }

    /// The metadata as the JSON column value of a file row.
    pub fn to_column(&self) -> (r: JSON)
        ensures
            r.text@ == meta_json(self.name@, self.size, opt_view(self.md5), opt_view(self.sha3_224)),
    {
        JSON { text: self.to_json() }
    }
}

/// The metadata recorded after an upload streamed through the hashers:
/// the name is kept, and size and digests come from the storage report.
pub fn upload_meta(name: String, result: &UploadResult) -> (r: FileMeta)
    ensures
        r.name == name,
        r.size == Some(result.size),
        opt_view(r.md5) == Some(result.md5@),
        opt_view(r.sha3_224) == Some(result.sha3_224@),
{
    let md5 = result.md5.clone();
    let sha3_224 = result.sha3_224.clone();
    proof {
        assert(md5@ == result.md5@);
        assert(sha3_224@ == result.sha3_224@);
    }
    FileMeta { name, size: Some(result.size), md5: Some(md5), sha3_224: Some(sha3_224) }
}


/// Stripping the primary key from a file's row leaves its other four
/// columns, in order.
proof fn lemma_file_row_without_id(f: File, row: Seq<(String, Value)>)
    requires
        row_names(row) == file_columns_spec(),
        row_values(row) == file_row_values(f),
        row.len() == 5,
    ensures
        row_without(row, "id"@).len() == 4,
        row_names(row_without(row, "id"@)) =~= file_columns_spec().skip(1),
        row_values(row_without(row, "id"@)) =~= file_row_values(f).skip(1),
{
    reveal_strlit("id");
    reveal_strlit("status");
    reveal_strlit("expire_time");
    reveal_strlit("path");
    reveal_strlit("meta");
    reveal_with_fuel(crate::store::row_without, 7);
    assert(row[0].0@ == "id"@) by {
        assert(row_names(row)[0] == row[0].0@);
    }
    assert(row[1].0@ == "status"@) by {
        assert(row_names(row)[1] == row[1].0@);
    }
    assert(row[2].0@ == "expire_time"@) by {
        assert(row_names(row)[2] == row[2].0@);
    }
    assert(row[3].0@ == "path"@) by {
        assert(row_names(row)[3] == row[3].0@);
    }
    assert(row[4].0@ == "meta"@) by {
        assert(row_names(row)[4] == row[4].0@);
    }
    let w = row_without(row, "id"@);
    assert(("id"@).len() == 2);
    assert(row[1].0@ != "id"@) by {
        assert(("status"@).len() == 6);
    }
    assert(row[2].0@ != "id"@) by {
        assert(("expire_time"@).len() == 11);
    }
    assert(row[3].0@ != "id"@) by {
        assert(("path"@).len() == 4);
    }
    assert(row[4].0@ != "id"@) by {
        assert(("meta"@).len() == 4 && ("meta"@)[0] == 'm' && ("id"@)[0] == 'i');
    }
    assert(row.take(1).drop_last() =~= row.take(0));
    assert(row.take(1).last() == row[0]);
    assert(row.take(2).drop_last() =~= row.take(1));
    assert(row.take(2).last() == row[1]);
    assert(row.take(3).drop_last() =~= row.take(2));
    assert(row.take(3).last() == row[2]);
    assert(row.take(4).drop_last() =~= row.take(3));
    assert(row.take(4).last() == row[3]);
    assert(row.take(5) =~= row);
    assert(row.drop_last() =~= row.take(4));
    assert(row_without(row.take(0), "id"@) =~= Seq::<(String, Value)>::empty());
    assert(row_without(row.take(1), "id"@) =~= Seq::<(String, Value)>::empty());
    assert(row_without(row.take(2), "id"@) == row_without(row.take(1), "id"@) + seq![row[1]]);
    assert(row_without(row.take(2), "id"@) =~= seq![row[1]]);
    assert(row_without(row.take(3), "id"@) == row_without(row.take(2), "id"@) + seq![row[2]]);
    assert(row_without(row.take(3), "id"@) =~= seq![row[1], row[2]]);
    assert(row_without(row.take(4), "id"@) == row_without(row.take(3), "id"@) + seq![row[3]]);
    assert(row_without(row.take(4), "id"@) =~= seq![row[1], row[2], row[3]]);
    assert(w == row_without(row.take(4), "id"@) + seq![row[4]]);
    assert(w =~= seq![row[1], row[2], row[3], row[4]]);
    assert forall|j: int| 0 <= j < 4 implies row_names(w)[j] == file_columns_spec().skip(1)[j] by {
        assert(row_names(w)[j] == w[j].0@);
        assert(row_names(row)[j + 1] == row[j + 1].0@);
    }
    assert forall|j: int| 0 <= j < 4 implies row_values(w)[j] == file_row_values(f).skip(1)[j] by {
        assert(row_values(w)[j] == w[j].1);
        assert(row_values(row)[j + 1] == row[j + 1].1);
    }
}

/// The guarded update a file transition runs: the new row, fenced on the
/// primary key and the observed status, returning the stored columns.
/// Zero affected rows mean the fence failed.
pub fn file_update_query(new_file: File, observed: FileStatus) -> (r: RawQuery)
    ensures
        r.text() == "UPDATE "@ + quoted("solve_file"@) + " SET "@ + set_sql(
            file_columns_spec().skip(1),
            0,
        ) + " WHERE "@ + quoted("id"@) + " = "@ + placeholder(5) + " AND "@ + status_fence_sql(
            observed,
            5,
        ) + " RETURNING "@ + names_sql(file_columns_spec()),
        r.vals() == file_row_values(new_file).skip(1) + seq![Value::BigInt(new_file.id)]
            + seq![Value::BigInt((file_status_code(observed)) as i64)],
{
    proof {
        reveal_strlit("solve_file");
        reveal_strlit("id");
    }
    let ghost f0 = new_file;
    let id = new_file.id;
    let fence = status_fence(observed);
    let eq = column("id").equal(Expression::Value(Value::BigInt(id)));
    proof {
        assert(pred_ok(eq));
        assert(pred_vals(eq) =~= seq![Value::BigInt(id)]);
    }
    let guard = eq.and(fence);
    let row = new_file.into_row();
    proof {
        crate::objects::lemma_file_columns_valid();
        assert(row@.len() == 5) by {
            assert(row_names(row@).len() == file_columns_spec().len());
        }
        lemma_file_row_without_id(f0, row@);
        assert(crate::statement::all_valid(row_names(row@))) by {
            assert forall|j: int|
                0 <= j < row_names(row@).len() implies crate::text::valid_name(
                #[trigger] row_names(row@)[j],
            ) by {
                assert(row_names(row@)[j] == file_columns_spec()[j]);
            }
        }
        assert(pred_vals(guard) =~= seq![Value::BigInt(id)] + seq![
            Value::BigInt((file_status_code(observed)) as i64),
        ]);
    }
    let r = crate::store::object_update_query("solve_file", row, guard, File::columns());
    proof {
        assert(pred_sql(guard, 4) =~= quoted("id"@) + " = "@ + placeholder(5)
            + " AND "@ + status_fence_sql(observed, 5)) by {
            assert(crate::builder::side_sql(eq, 4, true) == pred_sql(eq, 4));
            assert(pred_sql(eq, 4) =~= quoted("id"@) + " = "@ + placeholder(5));
            assert(crate::builder::side_sql(fence, 5, true) == pred_sql(fence, 5));
            assert(pred_sql(fence, 5) == status_fence_sql(observed, 5));
        }
        assert(r.text() =~= "UPDATE "@ + quoted("solve_file"@) + " SET "@ + set_sql(
            file_columns_spec().skip(1),
            0,
        ) + " WHERE "@ + quoted("id"@) + " = "@ + placeholder(5) + " AND "@ + status_fence_sql(
            observed,
            5,
        ) + " RETURNING "@ + names_sql(file_columns_spec()));
        assert(r.vals() =~= file_row_values(f0).skip(1) + seq![Value::BigInt(f0.id)] + seq![
            Value::BigInt((file_status_code(observed)) as i64),
        ]);
    }
    r
}

/// The confirmed form of a pending upload, at the spec level.
pub open spec fn confirmed_spec(f: File) -> File {
    File {
        id: f.id,
        status: FileStatus::Available,
        expire_time: None,
        path: f.path,
        meta: f.meta,
    }
}

/// An upload whose row is persisted but still pending; `confirm` yields
/// the guarded write that makes it available.
pub struct PendingFile {
    pub model: File,
}

impl PendingFile {
    pub fn new(model: File) -> (r: PendingFile)
        ensures
            r.model == model,
    {
        PendingFile { model }
    }

    /// The write that settles the upload: the row turns available with
    /// its expiry cleared, fenced on the status still being pending.
    pub fn confirm(self) -> (r: RawQuery)
        ensures
            r.text() == "UPDATE "@ + quoted("solve_file"@) + " SET "@ + set_sql(
                file_columns_spec().skip(1),
                0,
            ) + " WHERE "@ + quoted("id"@) + " = "@ + placeholder(5) + " AND "@
                + status_fence_sql(FileStatus::Pending, 5) + " RETURNING "@ + names_sql(
                file_columns_spec(),
            ),
            r.vals() == file_row_values(confirmed_spec(self.model)).skip(1) + seq![
                Value::BigInt(self.model.id),
            ] + seq![Value::BigInt((file_status_code(FileStatus::Pending)) as i64)],
    {
        let ghost m0 = self.model;
        let updated = confirm_update(self.model);
        proof {
            assert(updated == confirmed_spec(m0));
        }
        file_update_query(updated, FileStatus::Pending)
    }
}


/// The columns of the file event table, in declaration order: the
/// file's own, then the event log's.
pub open spec fn file_event_columns_spec() -> Seq<Seq<char>> {
    file_columns_spec() + event_columns_suffix()
}

/// The columns an event insert writes: everything but the log's own id,
/// which the database assigns.
pub open spec fn file_event_insert_columns() -> Seq<Seq<char>> {
    file_columns_spec() + seq!["event_time"@, "event_account_id"@, "event_kind"@]
}

/// The file event table's columns.
pub fn file_event_columns() -> (r: Vec<String>)
    ensures
        crate::statement::views_of(r@) =~= file_event_columns_spec(),
{
    let mut r = File::columns();
    r.push("event_id".to_owned());
    r.push("event_time".to_owned());
    r.push("event_account_id".to_owned());
    r.push("event_kind".to_owned());
    proof {
        assert(crate::statement::views_of(r@) =~= file_event_columns_spec());
    }
    r
}

/// The insert that appends one event row for a file mutation: the
/// mutated row itself, with the event's time, actor and kind, returning
/// the stored event columns.  An unknown event kind is refused before
/// anything is written.  The caller runs it in the same transaction as
/// the mutation it records.
pub fn file_event_query(object: File, kind: EventKind, time: Instant, account_id: Option<i64>) -> (
    r: Result<RawQuery, Error>)
    ensures
        match r {
            Ok(q) => {
                &&& !(kind is Unknown)
                &&& q.text() == "INSERT INTO "@ + quoted("solve_file_event"@) + " ("@ + names_sql(
                    file_event_insert_columns(),
                ) + ") VALUES ("@ + values_sql(0, 8) + ")"@ + " RETURNING "@ + names_sql(
                    file_event_columns_spec(),
                )
                &&& q.vals() == file_row_values(object) + seq![
                    Value::BigInt(time.secs),
                    crate::objects::opt_i64_value(account_id),
                    Value::BigInt((event_kind_code(kind)) as i64),
                ]
            },
            Err(e) => kind is Unknown && e.spec_kind() == ErrorKind::ValueParse,
        },
{
    match crate::store::check_event_kind(&kind) {
        Ok(_) => {},
        Err(e) => {
            return Err(e);
        },
    }
    proof {
        reveal_strlit("solve_file_event");
        reveal_strlit("id");
        reveal_strlit("status");
        reveal_strlit("expire_time");
        reveal_strlit("path");
        reveal_strlit("meta");
        reveal_strlit("event_id");
        reveal_strlit("event_time");
        reveal_strlit("event_account_id");
        reveal_strlit("event_kind");
    }
    let ghost f0 = object;
    let row = event_row(object.into_row(), 0, time, account_id, kind);
    let ghost rn = row_names(row@);
    let ghost rv = row_values(row@);
    proof {
        assert(rn =~= file_event_columns_spec());
        assert(rv =~= file_row_values(f0) + crate::store::event_values_suffix(
            0,
            time,
            account_id,
            kind,
        ));
        assert(row@.len() == 9) by {
            assert(rn.len() == file_event_columns_spec().len());
        }
        crate::objects::lemma_file_columns_valid();
        assert(crate::statement::all_valid(rn)) by {
            assert forall|j: int|
                0 <= j < rn.len() implies crate::text::valid_name(#[trigger] rn[j]) by {
                if j < 5 {
                    assert(rn[j] == file_columns_spec()[j]);
                } else {
                    assert(rn[j] == event_columns_suffix()[j - 5]);
                }
            }
        }
        assert(("event_id"@).len() == 8);
        assert(row@[5].0@ == "event_id"@) by {
            assert(rn[5] == row@[5].0@);
        }
        assert forall|j: int|
            0 <= j < row@.len() && j != 5 implies (#[trigger] row@[j]).0@ != "event_id"@ by {
            assert(rn[j] == row@[j].0@);
            if j == 0 {
                assert(("id"@).len() == 2);
            } else if j == 1 {
                assert(("status"@).len() == 6);
            } else if j == 2 {
                assert(("expire_time"@).len() == 11);
            } else if j == 3 {
                assert(("path"@).len() == 4);
            } else if j == 4 {
                assert(("meta"@).len() == 4);
            } else if j == 6 {
                assert(("event_time"@).len() == 10);
            } else if j == 7 {
                assert(("event_account_id"@).len() == 16);
            } else {
                assert(("event_kind"@).len() == 10);
            }
        }
        crate::store::lemma_row_without_single(row@, "event_id"@, 5);
        let w = row_without(row@, "event_id"@);
        assert(w =~= row@.take(5) + row@.skip(6));
        assert(w.len() == 8);
        assert(row_names(w) =~= file_event_insert_columns()) by {
            assert forall|j: int|
                0 <= j < 8 implies #[trigger] row_names(w)[j] == file_event_insert_columns()[j] by {
                assert(row_names(w)[j] == w[j].0@);
                if j < 5 {
                    assert(w[j] == row@[j]);
                    assert(rn[j] == row@[j].0@);
                } else {
                    assert(w[j] == row@[j + 1]);
                    assert(rn[j + 1] == row@[j + 1].0@);
                }
            }
        }
        assert(row_values(w) =~= file_row_values(f0) + seq![
            Value::BigInt(time.secs),
            crate::objects::opt_i64_value(account_id),
            Value::BigInt((event_kind_code(kind)) as i64),
        ]) by {
            assert forall|j: int|
                0 <= j < 8 implies #[trigger] row_values(w)[j] == (file_row_values(f0) + seq![
                    Value::BigInt(time.secs),
                    crate::objects::opt_i64_value(account_id),
                    Value::BigInt((event_kind_code(kind)) as i64),
                ])[j] by {
                assert(row_values(w)[j] == w[j].1);
                if j < 5 {
                    assert(w[j] == row@[j]);
                    assert(rv[j] == row@[j].1);
                } else {
                    assert(w[j] == row@[j + 1]);
                    assert(rv[j + 1] == row@[j + 1].1);
                }
            }
        }
    }
    let q = event_insert_query("solve_file_event", row, file_event_columns());
    proof {
        assert(q.text() =~= "INSERT INTO "@ + quoted("solve_file_event"@) + " ("@ + names_sql(
            file_event_insert_columns(),
        ) + ") VALUES ("@ + values_sql(0, 8) + ")"@ + " RETURNING "@ + names_sql(
            file_event_columns_spec(),
        ));
    }
    Ok(q)
}

/// The insert a new file row runs (without its primary key, which the
/// database assigns), returning the stored columns.  A file whose status
/// is unknown is refused before anything is written.
pub fn file_create_query(file: File) -> (r: Result<RawQuery, Error>)
    ensures
        match r {
            Ok(q) => file_is_valid(file) && q.text() == "INSERT INTO "@ + quoted("solve_file"@)
                + " ("@ + names_sql(file_columns_spec().skip(1)) + ") VALUES ("@ + values_sql(
                0,
                4,
            ) + ")"@ + " RETURNING "@ + names_sql(file_columns_spec()) && q.vals()
                == file_row_values(file).skip(1),
            Err(e) => !file_is_valid(file) && e.spec_kind() == ErrorKind::NotFound,
        },
{
    proof {
        reveal_strlit("solve_file");
    }
    if !file.is_valid() {
        return Err(Error::NotFound("invalid file".to_owned()));
    }
    let ghost f0 = file;
    let row = file.into_row();
    proof {
        crate::objects::lemma_file_columns_valid();
        assert(row@.len() == 5) by {
            assert(row_names(row@).len() == file_columns_spec().len());
        }
        lemma_file_row_without_id(f0, row@);
        assert(crate::statement::all_valid(row_names(row@))) by {
            assert forall|j: int|
                0 <= j < row_names(row@).len() implies crate::text::valid_name(
                #[trigger] row_names(row@)[j],
            ) by {
                assert(row_names(row@)[j] == file_columns_spec()[j]);
            }
        }
    }
    let q = crate::store::object_insert_query("solve_file", row, File::columns());
    proof {
        assert(q.text() =~= "INSERT INTO "@ + quoted("solve_file"@) + " ("@ + names_sql(
            file_columns_spec().skip(1),
        ) + ") VALUES ("@ + values_sql(0, 4) + ")"@ + " RETURNING "@ + names_sql(
            file_columns_spec(),
        ));
        assert(q.vals() =~= file_row_values(f0).skip(1));
    }
    Ok(q)
}

/// The Create event of a fresh file: the event's object is the persisted
/// row the insert returned.  The insert built by [`file_create_query`]
/// and this one run in one transaction.
pub fn file_create_event_query(persisted: File, time: Instant, account_id: Option<i64>) -> (r:
    RawQuery)
    ensures
        r.text() == "INSERT INTO "@ + quoted("solve_file_event"@) + " ("@ + names_sql(
            file_event_insert_columns(),
        ) + ") VALUES ("@ + values_sql(0, 8) + ")"@ + " RETURNING "@ + names_sql(
            file_event_columns_spec(),
        ),
        r.vals() == file_row_values(persisted) + seq![
            Value::BigInt(time.secs),
            crate::objects::opt_i64_value(account_id),
            Value::BigInt(1),
        ],
{
    match file_event_query(persisted, EventKind::Create, time, account_id) {
        Ok(q) => q,
        Err(_) => vstd::pervasive::unreached(),
    }
}

/// One file transition as a unit: the status-fenced update of the row
/// and the Update event that records it, both pinned.  The two
/// statements run in one transaction; the event insert runs only when
/// the update affected one row (see
/// [`crate::store::check_update_affected`]) — a lost fence appends
/// nothing.
pub fn file_update_queries(
    new_file: File,
    observed: FileStatus,
    time: Instant,
    account_id: Option<i64>,
) -> (r: (RawQuery, RawQuery))
    ensures
        r.0.text() == "UPDATE "@ + quoted("solve_file"@) + " SET "@ + set_sql(
            file_columns_spec().skip(1),
            0,
        ) + " WHERE "@ + quoted("id"@) + " = "@ + placeholder(5) + " AND "@ + status_fence_sql(
            observed,
            5,
        ) + " RETURNING "@ + names_sql(file_columns_spec()),
        r.0.vals() == file_row_values(new_file).skip(1) + seq![Value::BigInt(new_file.id)]
            + seq![Value::BigInt((file_status_code(observed)) as i64)],
        r.1.text() == "INSERT INTO "@ + quoted("solve_file_event"@) + " ("@ + names_sql(
            file_event_insert_columns(),
        ) + ") VALUES ("@ + values_sql(0, 8) + ")"@ + " RETURNING "@ + names_sql(
            file_event_columns_spec(),
        ),
        crate::value::values_like(
            r.1.vals(),
            file_row_values(new_file) + seq![
                Value::BigInt(time.secs),
                crate::objects::opt_i64_value(account_id),
                Value::BigInt(3),
            ],
        ),
{
    let ghost f0 = new_file;
    let mirror = new_file.duplicate();
    let update = file_update_query(new_file, observed);
    let event = match file_event_query(mirror, EventKind::Update, time, account_id) {
        Ok(q) => q,
        Err(_) => vstd::pervasive::unreached(),
    };
    proof {
        crate::objects::lemma_file_like_values(mirror, f0);
        let want = file_row_values(f0) + seq![
            Value::BigInt(time.secs),
            crate::objects::opt_i64_value(account_id),
            Value::BigInt(3),
        ];
        assert forall|i: int|
            0 <= i < event.vals().len() implies crate::value::value_eq(
            &event.vals()[i],
            &want[i],
        ) by {
            if i < 5 {
                assert(event.vals()[i] == file_row_values(mirror)[i]);
            }
        }
    }
    (update, event)
}

/// One file deletion as a unit: the removal of the row, fenced on the
/// primary key and the observed status, and the Delete event whose
/// object is the zero file carrying only the id.  The two statements run
/// in one transaction; the event insert runs only when exactly one row
/// was deleted (see [`crate::store::check_delete_affected`]).
pub fn file_delete_queries(
    id: i64,
    observed: FileStatus,
    time: Instant,
    account_id: Option<i64>,
) -> (r: (RawQuery, RawQuery))
    ensures
        r.0.text() == "DELETE FROM "@ + quoted("solve_file"@) + " WHERE "@ + quoted("id"@)
            + " = "@ + placeholder(1) + " AND "@ + status_fence_sql(observed, 1),
        r.0.vals() == seq![
            Value::BigInt(id),
            Value::BigInt((file_status_code(observed)) as i64),
        ],
        r.1.text() == "INSERT INTO "@ + quoted("solve_file_event"@) + " ("@ + names_sql(
            file_event_insert_columns(),
        ) + ") VALUES ("@ + values_sql(0, 8) + ")"@ + " RETURNING "@ + names_sql(
            file_event_columns_spec(),
        ),
        r.1.vals().len() == 8,
        is_zero_file_row(r.1.vals().take(5), id),
        r.1.vals().skip(5) =~= seq![
            Value::BigInt(time.secs),
            crate::objects::opt_i64_value(account_id),
            Value::BigInt(2),
        ],
{
    proof {
        reveal_strlit("solve_file");
        reveal_strlit("id");
    }
    let fence = status_fence(observed);
    let eq = column("id").equal(Expression::Value(Value::BigInt(id)));
    proof {
        assert(pred_ok(eq));
        assert(pred_vals(eq) =~= seq![Value::BigInt(id)]);
    }
    let guard = eq.and(fence);
    let removal = object_delete_query("solve_file", guard);
    proof {
        assert(pred_sql(guard, 0) =~= quoted("id"@) + " = "@ + placeholder(1) + " AND "@
            + status_fence_sql(observed, 1)) by {
            assert(crate::builder::side_sql(eq, 0, true) == pred_sql(eq, 0));
            assert(pred_sql(eq, 0) =~= quoted("id"@) + " = "@ + placeholder(1));
            assert(crate::builder::side_sql(fence, 1, true) == pred_sql(fence, 1));
            assert(pred_sql(fence, 1) == status_fence_sql(observed, 1));
        }
        assert(removal.text() =~= "DELETE FROM "@ + quoted("solve_file"@) + " WHERE "@ + quoted(
            "id"@,
        ) + " = "@ + placeholder(1) + " AND "@ + status_fence_sql(observed, 1));
        assert(removal.vals() =~= seq![
            Value::BigInt(id),
            Value::BigInt((file_status_code(observed)) as i64),
        ]);
    }
    let zero = File::zero(id);
    let ghost z0 = zero;
    let event = match file_event_query(zero, EventKind::Delete, time, account_id) {
        Ok(q) => q,
        Err(_) => vstd::pervasive::unreached(),
    };
    proof {
        assert(event.vals().take(5) =~= file_row_values(z0));
        assert(event.vals().skip(5) =~= seq![
            Value::BigInt(time.secs),
            crate::objects::opt_i64_value(account_id),
            Value::BigInt(2),
        ]);
    }
    (removal, event)
}

} // verus!
