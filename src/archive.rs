//! Archive Extractor: which container a download is, and the bytes to write
//! for it.
use vstd::prelude::*;
use crate::config::{opt_view, Config};
use crate::pattern::{anchor_pattern, anchored, regex_compiles, regex_is_match, regex_match, regex_valid};
use crate::text::{base_name, contains_char, ends_with, file_name, has_suffix, last_chars, slice_from_end};

verus! {

/// The kinds of download that are handled.
#[derive(Clone, Copy, Debug, PartialEq, Eq, Structural)]
pub enum Container {
    /// A tar archive compressed with gzip.
    TarGz,
    /// A tar archive compressed with xz.
    TarXz,
    /// A zip archive.
    Zip,
    /// One gzip-compressed file.
    Gzip,
    /// A Windows executable, written as it is.
    WindowsExe,
    /// Any other program, written as it is.
    Binary,
}

/// The container that a download URL names by its ending; `None` when the
/// ending is not recognised.
pub open spec fn container_of(url: Seq<char>) -> Option<Container> {
    if has_suffix(url, ".tar.gz"@) || has_suffix(url, ".tgz"@) {
        Some(Container::TarGz)
    } else if has_suffix(url, ".tar.xz"@) || has_suffix(url, ".txz"@) {
        Some(Container::TarXz)
    } else if has_suffix(url, ".zip"@) {
        Some(Container::Zip)
    } else if has_suffix(url, ".gz"@) {
        Some(Container::Gzip)
    } else if has_suffix(url, ".exe"@) {
        Some(Container::WindowsExe)
    } else if has_suffix(url, ".com"@) || has_suffix(url, ".appimage"@) || has_suffix(
        url,
        ".AppImage"@,
    ) {
        Some(Container::Binary)
    } else {
        match last_chars(url, 8) {
            Some(tail) => if tail.contains('.') {
                None
            } else {
                Some(Container::Binary)
            },
            None => None,
        }
    }
}

/// Returns the container that a download URL names by its ending. A URL
/// whose last eight characters hold no dot is taken for a bare program.
pub fn container_for(url: &str) -> (r: Option<Container>)
    ensures
        r == container_of(url@),
{
    if ends_with(url, ".tar.gz") || ends_with(url, ".tgz") {
        Some(Container::TarGz)
    } else if ends_with(url, ".tar.xz") || ends_with(url, ".txz") {
        Some(Container::TarXz)
    } else if ends_with(url, ".zip") {
        Some(Container::Zip)
    } else if ends_with(url, ".gz") {
        Some(Container::Gzip)
    } else if ends_with(url, ".exe") {
        Some(Container::WindowsExe)
    } else if ends_with(url, ".com") || ends_with(url, ".appimage") || ends_with(url, ".AppImage") {
        Some(Container::Binary)
    } else {
        match slice_from_end(url, 8) {
            Some(tail) => if contains_char(tail, '.') {
                None
            } else {
                Some(Container::Binary)
            },
            None => None,
        }
    }
}

/// Whether the written file gets its executable bits: every file but one
/// whose name ends in `.exe`.
pub fn needs_exec_bits(file_name: &str) -> (r: bool)
    ensures
        r == !has_suffix(file_name@, ".exe"@),
{
    !ends_with(file_name, ".exe")
}

/// Returns the permissions to give a file whose mode is `mode`: `0o755` when
/// no executable bit is set, and nothing when one is.
pub fn set_executable(mode: u32) -> (r: Option<u32>)
    ensures
        r == (if mode & 0o111u32 == 0 {
            Some(0o755u32)
        } else {
            None::<u32>
        }),
{
    if mode & 0o111 == 0 {
        Some(0o755)
    } else {
        None
    }
}

/// Why an archive gave nothing to write.
#[derive(Clone, Copy, Debug, PartialEq, Eq, Structural)]
pub enum ArchiveError {
    /// The download is not a well-formed archive of its kind.
    Corrupt,
    /// The member pattern is not a valid regular expression.
    BadPattern,
}

/// What `flate2::read::GzDecoder` decodes from `data`.
pub uninterp spec fn gunzip_of(data: Seq<u8>) -> Option<Seq<u8>>;

/// What `xz2::read::XzDecoder` decodes from `data`.
pub uninterp spec fn unxz_of(data: Seq<u8>) -> Option<Seq<u8>>;

/// The paths of the entries of the tar archive `data`, as `tar` reads them
/// (`None` for one that is not UTF-8).
pub uninterp spec fn tar_paths_of(data: Seq<u8>) -> Option<Seq<Option<Seq<char>>>>;

/// The contents of entry `index` of the tar archive `data`.
pub uninterp spec fn tar_data_of(data: Seq<u8>, index: int) -> Option<Seq<u8>>;

/// The names of the entries of the zip archive `data`, in the order of its
/// central directory.
pub uninterp spec fn zip_names_of(data: Seq<u8>) -> Option<Seq<Seq<char>>>;

/// The contents of entry `index` of the zip archive `data`.
pub uninterp spec fn zip_data_of(data: Seq<u8>, index: int) -> Option<Seq<u8>>;

/// Relies on `flate2::read::GzDecoder`: decodes the gzip stream `data`,
/// failing on a malformed stream.
#[verifier::external_body]
fn gunzip(data: &[u8]) -> (r: Option<Vec<u8>>)
    ensures
        r matches Some(d) ==> gunzip_of(data@) == Some(d@),
        r is None ==> gunzip_of(data@) is None,
{
    let mut out = Vec::new();
    std::io::Read::read_to_end(&mut flate2::read::GzDecoder::new(data), &mut out).ok()?;
    Some(out)
}

/// Relies on `xz2::read::XzDecoder`: decodes the xz stream `data`, failing
/// on a malformed stream.
#[verifier::external_body]
fn unxz(data: &[u8]) -> (r: Option<Vec<u8>>)
    ensures
        r matches Some(d) ==> unxz_of(data@) == Some(d@),
        r is None ==> unxz_of(data@) is None,
{
    let mut out = Vec::new();
    std::io::Read::read_to_end(&mut xz2::read::XzDecoder::new(data), &mut out).ok()?;
    Some(out)
}

/// Relies on `tar::Archive::entries` and `tar::Entry::path`: the path of
/// each entry, in archive order.
#[verifier::external_body]
fn tar_paths(data: &[u8]) -> (r: Option<Vec<Option<String>>>)
    ensures
        r matches Some(v) ==> tar_paths_of(data@) == Some(v@.map_values(|o: Option<String>| opt_view(o))),
        r is None ==> tar_paths_of(data@) is None,
{
    let mut archive = tar::Archive::new(data);
    let mut paths = Vec::new();
    for entry in archive.entries().ok()? {
        paths.push(entry.ok()?.path().ok()?.to_str().map(String::from));
    }
    Some(paths)
}

/// Relies on `tar::Archive::entries`: the contents of entry `index`.
#[verifier::external_body]
fn tar_data(data: &[u8], index: usize) -> (r: Option<Vec<u8>>)
    ensures
        r matches Some(d) ==> tar_data_of(data@, index as int) == Some(d@),
        r is None ==> tar_data_of(data@, index as int) is None,
{
    let mut archive = tar::Archive::new(data);
    let mut entry = archive.entries().ok()?.nth(index)?.ok()?;
    let mut out = Vec::new();
    std::io::Read::read_to_end(&mut entry, &mut out).ok()?;
    Some(out)
}

/// Relies on `zip::ZipArchive::by_index_raw` and `ZipFile::name`: the name
/// of each entry, by index.
#[verifier::external_body]
fn zip_names(data: &[u8]) -> (r: Option<Vec<String>>)
    ensures
        r matches Some(v) ==> zip_names_of(data@) == Some(v@.map_values(|s: String| s@)),
        r is None ==> zip_names_of(data@) is None,
{
    let mut archive = zip::ZipArchive::new(std::io::Cursor::new(data)).ok()?;
    let mut names = Vec::new();
    for i in 0..archive.len() {
        names.push(archive.by_index_raw(i).ok()?.name().to_string());
    }
    Some(names)
}

/// Relies on `zip::ZipArchive::by_index_decrypt` with an empty password: the
/// decompressed contents of entry `index`. An entry that it cannot open
/// without a password, and a malformed one, give `None`.
#[verifier::external_body]
fn zip_data(data: &[u8], index: usize) -> (r: Option<Vec<u8>>)
    ensures
        r matches Some(d) ==> zip_data_of(data@, index as int) == Some(d@),
        r is None ==> zip_data_of(data@, index as int) is None,
{
    let mut archive = zip::ZipArchive::new(std::io::Cursor::new(data)).ok()?;
    let mut file = archive.by_index_decrypt(index, &[]).ok()?.ok()?;
    let mut out = Vec::new();
    std::io::Read::read_to_end(&mut file, &mut out).ok()?;
    Some(out)
}

/// Whether an entry path's base name matches the whole of `pattern`.
pub open spec fn member_matches(path: Option<Seq<char>>, pattern: Seq<char>) -> bool {
    match path {
        Some(p) => match base_name(p) {
            Some(b) => regex_match(anchored(pattern), b),
            None => false,
        },
        None => false,
    }
}

/// The first entry at or after `i` whose base name matches `pattern`.
pub open spec fn first_member(paths: Seq<Option<Seq<char>>>, pattern: Seq<char>, i: int) -> Option<
    int,
>
    decreases paths.len() - i,
{
    if i < 0 || i >= paths.len() {
        None
    } else if member_matches(paths[i], pattern) {
        Some(i)
    } else {
        first_member(paths, pattern, i + 1)
    }
}

/// Entry paths as character sequences.
pub open spec fn paths_view(v: Seq<Option<String>>) -> Seq<Option<Seq<char>>> {
    v.map_values(|o: Option<String>| opt_view(o))
}

proof fn lemma_first_member_bounds(paths: Seq<Option<Seq<char>>>, pattern: Seq<char>, i: int)
    requires
        0 <= i,
    ensures
        first_member(paths, pattern, i) matches Some(k) ==> i <= k < paths.len() && member_matches(
            paths[k],
            pattern,
        ),
    decreases paths.len() - i,
{
    if i < paths.len() && !member_matches(paths[i], pattern) {
        lemma_first_member_bounds(paths, pattern, i + 1);
    }
}

/// Returns the index of the first entry whose base name matches the whole
/// of `pattern`.
pub fn find_member(paths: &Vec<Option<String>>, pattern: &str) -> (r: Option<usize>)
    requires
        regex_valid(anchored(pattern@)),
    ensures
        r matches Some(k) ==> first_member(paths_view(paths@), pattern@, 0) == Some(k as int),
        r is None ==> first_member(paths_view(paths@), pattern@, 0) is None,
{
    let re = anchor_pattern(pattern);
    let ghost pv = paths_view(paths@);
    let n = paths.len();
    let mut i: usize = 0;
    while i < n
        invariant
            n == paths@.len(),
            pv == paths_view(paths@),
            re@ == anchored(pattern@),
            regex_valid(anchored(pattern@)),
            i <= n,
            first_member(pv, pattern@, 0) == first_member(pv, pattern@, i as int),
        decreases n - i,
    {
        if let Some(path) = &paths[i] {
            assert(pv[i as int] == Some(path@));
            if let Some(name) = file_name(path.as_str()) {
                if regex_is_match(re.as_str(), name.as_str()) {
                    return Some(i);
                }
            }
        }
        i = i + 1;
    }
    None
}

/// An extraction result, its bytes as a sequence.
pub open spec fn bytes_outcome(r: Result<Option<Vec<u8>>, ArchiveError>) -> Result<
    Option<Seq<u8>>,
    ArchiveError,
> {
    match r {
        Ok(Some(d)) => Ok(Some(d@)),
        Ok(None) => Ok(None),
        Err(e) => Err(e),
    }
}

/// The contents of the member of the tar archive `tar` matched by
/// `pattern`: `Ok(None)` when no member matches.
pub open spec fn tar_member(tar: Seq<u8>, pattern: Seq<char>) -> Result<Option<Seq<u8>>, ArchiveError> {
    match tar_paths_of(tar) {
        None => Err(ArchiveError::Corrupt),
        Some(paths) => if !regex_valid(anchored(pattern)) {
            Err(ArchiveError::BadPattern)
        } else {
            match first_member(paths, pattern, 0) {
                None => Ok(None),
                Some(i) => match tar_data_of(tar, i) {
                    None => Err(ArchiveError::Corrupt),
                    Some(d) => Ok(Some(d)),
                },
            }
        },
    }
}

/// The contents of the member of the zip archive `zip` matched by
/// `pattern`: `Ok(None)` when no member matches.
pub open spec fn zip_member(zip: Seq<u8>, pattern: Seq<char>) -> Result<Option<Seq<u8>>, ArchiveError> {
    match zip_names_of(zip) {
        None => Err(ArchiveError::Corrupt),
        Some(names) => if !regex_valid(anchored(pattern)) {
            Err(ArchiveError::BadPattern)
        } else {
            match first_member(names.map_values(|n: Seq<char>| Some(n)), pattern, 0) {
                None => Ok(None),
                Some(i) => match zip_data_of(zip, i) {
                    None => Err(ArchiveError::Corrupt),
                    Some(d) => Ok(Some(d)),
                },
            }
        },
    }
}

/// Takes the member matched by `pattern` out of the tar archive `tar`.
fn unpack_tar(tar: &[u8], pattern: &str) -> (r: Result<Option<Vec<u8>>, ArchiveError>)
    ensures
        bytes_outcome(r) == tar_member(tar@, pattern@),
{
    let paths = match tar_paths(tar) {
        None => return Err(ArchiveError::Corrupt),
        Some(p) => p,
    };
    let re = anchor_pattern(pattern);
    if !regex_compiles(re.as_str()) {
        return Err(ArchiveError::BadPattern);
    }
    match find_member(&paths, pattern) {
        None => Ok(None),
        Some(i) => match tar_data(tar, i) {
            None => Err(ArchiveError::Corrupt),
            Some(d) => Ok(Some(d)),
        },
    }
}

/// The member pattern of an entry that has one.
pub open spec fn member_pattern(conf: Config) -> Seq<char>
    recommends
        conf@.target is Some,
{
    conf@.target->0
}

/// Takes the member matched by the entry's member pattern out of a tar
/// archive compressed with gzip. `Ok(None)`: no member matches.
pub fn extract_target_from_tarfile(compressed: &[u8], conf: &Config) -> (r: Result<
    Option<Vec<u8>>,
    ArchiveError,
>)
    requires
        conf@.target is Some,
    ensures
        bytes_outcome(r) == match gunzip_of(compressed@) {
            None => Err(ArchiveError::Corrupt),
            Some(tar) => tar_member(tar, member_pattern(*conf)),
        },
{
    let pattern = conf.target_filename_to_extract_from_archive.as_ref().unwrap();
    match gunzip(compressed) {
        None => Err(ArchiveError::Corrupt),
        Some(tar) => unpack_tar(tar.as_slice(), pattern.as_str()),
    }
}

/// Takes the member matched by the entry's member pattern out of a tar
/// archive compressed with xz. `Ok(None)`: no member matches.
pub fn extract_target_from_tarxz(compressed: &[u8], conf: &Config) -> (r: Result<
    Option<Vec<u8>>,
    ArchiveError,
>)
    requires
        conf@.target is Some,
    ensures
        bytes_outcome(r) == match unxz_of(compressed@) {
            None => Err(ArchiveError::Corrupt),
            Some(tar) => tar_member(tar, member_pattern(*conf)),
        },
{
    let pattern = conf.target_filename_to_extract_from_archive.as_ref().unwrap();
    match unxz(compressed) {
        None => Err(ArchiveError::Corrupt),
        Some(tar) => unpack_tar(tar.as_slice(), pattern.as_str()),
    }
}

/// Takes the member matched by the entry's member pattern out of a zip
/// archive. `Ok(None)`: no member matches.
pub fn extract_target_from_zipfile(compressed: &[u8], conf: &Config) -> (r: Result<
    Option<Vec<u8>>,
    ArchiveError,
>)
    requires
        conf@.target is Some,
    ensures
        bytes_outcome(r) == zip_member(compressed@, member_pattern(*conf)),
{
    let pattern = conf.target_filename_to_extract_from_archive.as_ref().unwrap();
    let names = match zip_names(compressed) {
        None => return Err(ArchiveError::Corrupt),
        Some(n) => n,
    };
    let re = anchor_pattern(pattern.as_str());
    if !regex_compiles(re.as_str()) {
        return Err(ArchiveError::BadPattern);
    }
    let mut paths: Vec<Option<String>> = Vec::new();
    let mut i: usize = 0;
    while i < names.len()
        invariant
            i <= names@.len(),
            paths@.len() == i,
            forall|j: int| 0 <= j < i ==> opt_view(#[trigger] paths@[j]) == Some(names@[j]@),
        decreases names@.len() - i,
    {
        paths.push(Some(names[i].clone()));
        i = i + 1;
    }
    proof {
        let nv = names@.map_values(|s: String| s@);
        assert(paths_view(paths@) =~= nv.map_values(|n: Seq<char>| Some(n)));
    }
    match find_member(&paths, pattern.as_str()) {
        None => Ok(None),
        Some(i) => match zip_data(compressed, i) {
            None => Err(ArchiveError::Corrupt),
            Some(d) => Ok(Some(d)),
        },
    }
}

/// Decodes a single gzip-compressed file; there is no member to choose.
pub fn extract_target_from_gzfile(compressed: &[u8]) -> (r: Result<Vec<u8>, ArchiveError>)
    ensures
        r matches Ok(d) ==> gunzip_of(compressed@) == Some(d@),
        r is Err ==> gunzip_of(compressed@) is None && r == Err::<Vec<u8>, ArchiveError>(
            ArchiveError::Corrupt,
        ),
{
    match gunzip(compressed) {
        None => Err(ArchiveError::Corrupt),
        Some(d) => Ok(d),
    }
}

/// The bytes to write for a download of kind `kind`.
pub open spec fn unpacked(kind: Container, data: Seq<u8>, pattern: Seq<char>) -> Result<
    Option<Seq<u8>>,
    ArchiveError,
> {
    match kind {
        Container::TarGz => match gunzip_of(data) {
            None => Err(ArchiveError::Corrupt),
            Some(tar) => tar_member(tar, pattern),
        },
        Container::TarXz => match unxz_of(data) {
            None => Err(ArchiveError::Corrupt),
            Some(tar) => tar_member(tar, pattern),
        },
        Container::Zip => zip_member(data, pattern),
        Container::Gzip => match gunzip_of(data) {
            None => Err(ArchiveError::Corrupt),
            Some(d) => Ok(Some(d)),
        },
        Container::WindowsExe | Container::Binary => Ok(Some(data)),
    }
}

/// Returns the bytes to write at the entry's desired file name for a
/// download of kind `kind`: the matched member of an archive, the decoded
/// stream of a gzip file, or the download itself for a program. `Ok(None)`:
/// the archive holds no matching member.
pub fn unpack(kind: Container, data: &[u8], conf: &Config) -> (r: Result<
    Option<Vec<u8>>,
    ArchiveError,
>)
    requires
        conf@.target is Some,
    ensures
        bytes_outcome(r) == unpacked(kind, data@, member_pattern(*conf)),
{
    match kind {
        Container::TarGz => extract_target_from_tarfile(data, conf),
        Container::TarXz => extract_target_from_tarxz(data, conf),
        Container::Zip => extract_target_from_zipfile(data, conf),
        Container::Gzip => match extract_target_from_gzfile(data) {
            Ok(d) => Ok(Some(d)),
            Err(e) => Err(e),
        },
        Container::WindowsExe | Container::Binary => Ok(Some(vstd::slice::slice_to_vec(data))),
    }
}

/// The contents chosen from an archive listed as (path, contents) entries:
/// those of the first entry whose base name matches `pattern`.
pub open spec fn chosen_contents(entries: Seq<(Option<Seq<char>>, Seq<u8>)>, pattern: Seq<char>) -> Option<
    Seq<u8>,
> {
    match first_member(entries.map_values(|e: (Option<Seq<char>>, Seq<u8>)| e.0), pattern, 0) {
        Some(i) => Some(entries[i].1),
        None => None,
    }
}

proof fn lemma_first_member_insert(
    paths: Seq<Option<Seq<char>>>,
    extra: Option<Seq<char>>,
    at: int,
    pattern: Seq<char>,
    i: int,
)
    requires
        0 <= at <= paths.len(),
        0 <= i <= paths.len(),
        !member_matches(extra, pattern),
    ensures
        first_member(paths.insert(at, extra), pattern, if i < at { i } else { i + 1 }) == match first_member(
            paths,
            pattern,
            i,
        ) {
            Some(k) => Some(if k < at { k } else { k + 1 }),
            None => None,
        },
    decreases paths.len() - i,
{
    let longer = paths.insert(at, extra);
    if i < paths.len() {
        let j = if i < at { i } else { i + 1 };
        assert(longer[j] == paths[i]);
        if !member_matches(paths[i], pattern) {
            lemma_first_member_insert(paths, extra, at, pattern, i + 1);
            if i + 1 == at {
                assert(longer[at] == extra);
                assert(first_member(longer, pattern, at) == first_member(longer, pattern, at + 1));
            }
        }
    }
}

/// Members that do not match the pattern change nothing: putting one more
/// such member anywhere in an archive leaves the extracted bytes as they
/// were.
pub proof fn lemma_unrelated_member_ignored(
    entries: Seq<(Option<Seq<char>>, Seq<u8>)>,
    extra: (Option<Seq<char>>, Seq<u8>),
    at: int,
    pattern: Seq<char>,
)
    requires
        0 <= at <= entries.len(),
        !member_matches(extra.0, pattern),
    ensures
        chosen_contents(entries.insert(at, extra), pattern) == chosen_contents(entries, pattern),
{
    let longer = entries.insert(at, extra);
    let paths = entries.map_values(|e: (Option<Seq<char>>, Seq<u8>)| e.0);
    assert(longer.map_values(|e: (Option<Seq<char>>, Seq<u8>)| e.0) =~= paths.insert(at, extra.0));
    lemma_first_member_insert(paths, extra.0, at, pattern, 0);
    if at == 0 {
        assert(paths.insert(at, extra.0)[0] == extra.0);
    }
    lemma_first_member_bounds(paths, pattern, 0);
}

} // verus!
