//! Self-update support: version comparison, release naming and `checksums.txt` manifests.
//!
//! The network, archive and file-system parts of an update run around these functions; what is
//! decided here (is a release newer, which asset fits the platform, does a downloaded archive
//! match its published digest) is stated and proved.

use vstd::prelude::*;
use crate::text::{
    chars_of, concat, occurs_at, spec_to_lowercase, str_eq, string_from_chars, string_of,
    string_push, strip_leading_char, to_lowercase, trim_chars, trim_spec,
};
use sha2::{Digest, Sha256};

verus! {

// ---------------------------------------------------------------------------
// Types
// ---------------------------------------------------------------------------

/// What a check against the latest published release found.
#[derive(Debug, Clone)]
pub struct UpdateStatus {
    pub current_version: String,
    pub latest_version: String,
    pub release_tag: String,
    pub should_update: bool,
    pub release_url: String,
    pub changelog_url: String,
}

/// How an update is applied.
#[derive(Debug, Clone)]
pub struct ApplyUpdateOptions {
    pub show_progress: bool,
    pub show_output: bool,
    pub no_confirm: bool,
    pub target_version_tag: Option<String>,
}

impl Default for ApplyUpdateOptions {
    fn default() -> (o: ApplyUpdateOptions)
        ensures
            !o.show_progress,
            !o.show_output,
            o.no_confirm,
            o.target_version_tag is None,
    {
        ApplyUpdateOptions {
            show_progress: false,
            show_output: false,
            no_confirm: true,
            target_version_tag: None,
        }
    }
}

/// Result of applying an update: the version now installed, or the version that was current.
#[derive(Debug, Clone, PartialEq, Eq)]
pub enum ApplyUpdateOutcome {
    Updated(String),
    UpToDate(String),
}

/// Why an update step was refused.
#[derive(Debug, Clone)]
pub enum UpdateError {
    /// No release asset is published for this operating system and architecture.
    UnsupportedPlatform { os: String, arch: String },
    /// `checksums.txt` has no line for the archive.
    MissingChecksumEntry { archive_name: String },
    /// The archive's SHA-256 differs from the published one.
    ChecksumMismatch { archive_name: String, expected: String, actual: String },
    /// The release publishes no `checksums.txt`.
    MissingChecksumsAsset,
}

impl UpdateError {
    /// The error's text.
    pub fn message(&self) -> (m: String)
        ensures
            m@ == match self {
                UpdateError::UnsupportedPlatform { os, arch } => "unsupported platform for self-update: "@
                    + os@ + "-"@ + arch@,
                UpdateError::MissingChecksumEntry { archive_name } => "checksums.txt has no entry for `"@
                    + archive_name@ + "`"@,
                UpdateError::ChecksumMismatch { archive_name, expected, actual } => "checksum mismatch for `"@
                    + archive_name@ + "`: expected "@ + expected@ + ", got "@ + actual@,
                UpdateError::MissingChecksumsAsset => "release is missing `checksums.txt` asset"@,
            },
    {
        match self {
            UpdateError::UnsupportedPlatform { os, arch } => {
                let a = concat("unsupported platform for self-update: ", os.as_str());
                let b = concat(a.as_str(), "-");
                concat(b.as_str(), arch.as_str())
            },
            UpdateError::MissingChecksumEntry { archive_name } => {
                let a = concat("checksums.txt has no entry for `", archive_name.as_str());
                concat(a.as_str(), "`")
            },
            UpdateError::ChecksumMismatch { archive_name, expected, actual } => {
                let a = concat("checksum mismatch for `", archive_name.as_str());
                let b = concat(a.as_str(), "`: expected ");
                let c = concat(b.as_str(), expected.as_str());
                let d = concat(c.as_str(), ", got ");
                concat(d.as_str(), actual.as_str())
            },
            UpdateError::MissingChecksumsAsset => string_of("release is missing `checksums.txt` asset"),
        }
    }
}

// ---------------------------------------------------------------------------
// Notices after an update started from the prompt
// ---------------------------------------------------------------------------

/// The version a mock update prompt carries: such an update changes no files.
pub fn is_mock_release(latest_version: &str) -> (b: bool)
    ensures
        b == (latest_version@ == "9.9.9-mock"@),
{
    str_eq(latest_version, "9.9.9-mock")
}

/// The notice after a mock update.
pub fn mock_update_notice() -> (s: &'static str)
    ensures
        s@ == "Mock update successful! (No files were changed)"@,
{
    "Mock update successful! (No files were changed)"
}

/// What the application shows once an update attempt has finished: a notice (`Ok`) when it
/// installed a version or found the current one up to date, an error (`Err`) with the
/// failure's text otherwise.
pub fn update_result_notice(result: &Result<ApplyUpdateOutcome, String>) -> (r: Result<String, String>)
    ensures
        match result {
            Ok(ApplyUpdateOutcome::Updated(v)) => r matches Ok(m) && m@ == "Updated to "@ + v@
                + ". Restart romm-cli to use the new version."@,
            Ok(ApplyUpdateOutcome::UpToDate(v)) => r matches Ok(m) && m@ == "Already up to date (`"@
                + v@ + "`)."@,
            Err(e) => r matches Err(m) && m@ == "Update failed: "@ + e@,
        },
{
    match result {
        Ok(ApplyUpdateOutcome::Updated(v)) => {
            let a = concat("Updated to ", v.as_str());
            Ok(concat(a.as_str(), ". Restart romm-cli to use the new version."))
        },
        Ok(ApplyUpdateOutcome::UpToDate(v)) => {
            let a = concat("Already up to date (`", v.as_str());
            Ok(concat(a.as_str(), "`)."))
        },
        Err(e) => Err(concat("Update failed: ", e.as_str())),
    }
}

// ---------------------------------------------------------------------------
// Fixed names
// ---------------------------------------------------------------------------

/// Binary name used when the running executable's own name cannot be found.
pub fn default_bin_name() -> (s: &'static str)
    ensures
        s@ == "romm-cli"@,
{
    "romm-cli"
}

/// Name of the digest manifest published with each release.
pub fn checksums_asset_name() -> (s: &'static str)
    ensures
        s@ == "checksums.txt"@,
{
    "checksums.txt"
}

/// Where the project's changelog is published.
pub fn changelog_url() -> (s: &'static str)
    ensures
        s@ == "https://github.com/patricksmill/romm-cli/blob/main/CHANGELOG.md"@,
{
    "https://github.com/patricksmill/romm-cli/blob/main/CHANGELOG.md"
}

/// The binaries a release archive ships, in install order.
pub fn shipped_binaries() -> (v: Vec<&'static str>)
    ensures
        v@.len() == 2,
        v@[0]@ == "romm-cli"@,
        v@[1]@ == "romm-tui"@,
{
    let mut v: Vec<&'static str> = Vec::new();
    v.push("romm-cli");
    v.push("romm-tui");
    v
}

/// Release asset key for an operating system and architecture (as `std::env::consts` names them).
pub fn github_release_asset_key(os: &str, arch: &str) -> (r: Result<&'static str, UpdateError>)
    ensures
        match r {
            Ok(k) => {
                ||| os@ == "macos"@ && arch@ == "x86_64"@ && k@ == "macos-x86_64"@
                ||| os@ == "macos"@ && arch@ == "aarch64"@ && k@ == "macos-aarch64"@
                ||| os@ == "linux"@ && arch@ == "x86_64"@ && k@ == "linux-x86_64"@
                ||| os@ == "linux"@ && arch@ == "aarch64"@ && k@ == "linux-aarch64"@
                ||| os@ == "windows"@ && arch@ == "x86_64"@ && k@ == "windows-x86_64"@
            },
            Err(e) => {
                &&& e matches UpdateError::UnsupportedPlatform { os: o, arch: a }
                &&& o@ == os@
                &&& a@ == arch@
                &&& !(os@ == "macos"@ && arch@ == "x86_64"@)
                &&& !(os@ == "macos"@ && arch@ == "aarch64"@)
                &&& !(os@ == "linux"@ && arch@ == "x86_64"@)
                &&& !(os@ == "linux"@ && arch@ == "aarch64"@)
                &&& !(os@ == "windows"@ && arch@ == "x86_64"@)
            },
        },
{
    let mac = str_eq(os, "macos");
    let linux = str_eq(os, "linux");
    let win = str_eq(os, "windows");
    let x86 = str_eq(arch, "x86_64");
    let arm = str_eq(arch, "aarch64");
    if mac && x86 {
        Ok("macos-x86_64")
    } else if mac && arm {
        Ok("macos-aarch64")
    } else if linux && x86 {
        Ok("linux-x86_64")
    } else if linux && arm {
        Ok("linux-aarch64")
    } else if win && x86 {
        Ok("windows-x86_64")
    } else {
        Err(UpdateError::UnsupportedPlatform { os: string_of(os), arch: string_of(arch) })
    }
}

// ---------------------------------------------------------------------------
// Versions
// ---------------------------------------------------------------------------

/// A version tag without surrounding whitespace and leading `v`s.
pub open spec fn normalized_tag(s: Seq<char>) -> Seq<char> {
    strip_leading_char(trim_spec(s), 'v')
}

/// `version.trim().trim_start_matches('v')`.
pub fn normalize_version_tag(version: &str) -> (out: String)
    ensures
        out@ == normalized_tag(version@),
{
    let cs = chars_of(version);
    let t = trim_chars(cs.as_slice());
    let mut i: usize = 0;
    assert(t@.skip(0) =~= t@);
    while i < t.len() && t[i] == 'v'
        invariant
            i <= t@.len(),
            strip_leading_char(t@, 'v') == strip_leading_char(t@.skip(i as int), 'v'),
        decreases t@.len() - i,
    {
        assert(t@.skip(i as int).drop_first() =~= t@.skip(i + 1));
        i += 1;
    }
    let mut rest: Vec<char> = Vec::new();
    let mut j: usize = i;
    while j < t.len()
        invariant
            i <= j <= t@.len(),
            rest@ == t@.subrange(i as int, j as int),
        decreases t@.len() - j,
    {
        rest.push(t[j]);
        assert(t@.subrange(i as int, j as int).push(t@[j as int]) =~= t@.subrange(
            i as int,
            j + 1,
        ));
        j += 1;
    }
    assert(rest@ =~= t@.skip(i as int));
    string_from_chars(rest.as_slice())
}

/// What `self_update::version::bump_is_greater(current, other)` returns: `Some(b)` when both
/// parse as semantic versions (`b`: `other` is greater), `None` when either does not parse.
pub uninterp spec fn spec_bump_is_greater(current: Seq<char>, other: Seq<char>) -> Option<bool>;

/// `self_update::version::bump_is_greater`, its error mapped to `None`.
/// Claimed: the result is determined by the two strings, and a version is never greater than
/// itself (the comparison is semver's strict order on the two parsed versions). The semver
/// ordering itself is not restated here.
#[verifier::external_body]
fn bump_is_greater(current: &str, other: &str) -> (r: Option<bool>)
    ensures
        r == spec_bump_is_greater(current@, other@),
        current@ == other@ ==> r != Some(true),
{
    self_update::version::bump_is_greater(current, other).ok()
}

/// How a comparison result decides an update: only a successful "greater" does.
pub fn newer_from_comparison(cmp: Option<bool>) -> (b: bool)
    ensures
        b == (cmp == Some(true)),
{
    match cmp {
        Some(g) => g,
        None => false,
    }
}

/// Whether `latest` is a newer version than `current` (tags normalised first; unparseable
/// versions are never newer).
pub fn is_latest_newer(latest: &str, current: &str) -> (b: bool)
    ensures
        b == (spec_bump_is_greater(normalized_tag(current@), normalized_tag(latest@)) == Some(
            true,
        )),
        normalized_tag(latest@) == normalized_tag(current@) ==> !b,
{
    let c = normalize_version_tag(current);
    let l = normalize_version_tag(latest);
    let cmp = bump_is_greater(c.as_str(), l.as_str());
    newer_from_comparison(cmp)
}

/// Status of the installed version against the latest release tag.
pub fn update_status_from_release(current_version: &str, release_tag: &str, release_url: &str) -> (s:
    UpdateStatus)
    ensures
        s.current_version@ == current_version@,
        s.release_tag@ == release_tag@,
        s.latest_version@ == strip_leading_char(release_tag@, 'v'),
        s.should_update == (spec_bump_is_greater(
            normalized_tag(current_version@),
            normalized_tag(strip_leading_char(release_tag@, 'v')),
        ) == Some(true)),
        s.release_url@ == release_url@,
        s.changelog_url@ == "https://github.com/patricksmill/romm-cli/blob/main/CHANGELOG.md"@,
{
    let tag = chars_of(release_tag);
    let mut i: usize = 0;
    assert(tag@.skip(0) =~= tag@);
    while i < tag.len() && tag[i] == 'v'
        invariant
            i <= tag@.len(),
            strip_leading_char(tag@, 'v') == strip_leading_char(tag@.skip(i as int), 'v'),
        decreases tag@.len() - i,
    {
        assert(tag@.skip(i as int).drop_first() =~= tag@.skip(i + 1));
        i += 1;
    }
    let mut rest: Vec<char> = Vec::new();
    let mut j: usize = i;
    while j < tag.len()
        invariant
            i <= j <= tag@.len(),
            rest@ == tag@.subrange(i as int, j as int),
        decreases tag@.len() - j,
    {
        rest.push(tag[j]);
        assert(tag@.subrange(i as int, j as int).push(tag@[j as int]) =~= tag@.subrange(
            i as int,
            j + 1,
        ));
        j += 1;
    }
    assert(rest@ =~= tag@.skip(i as int));
    let latest_version = string_from_chars(rest.as_slice());
    let should_update = is_latest_newer(latest_version.as_str(), current_version);
    UpdateStatus {
        current_version: string_of(current_version),
        latest_version,
        release_tag: string_of(release_tag),
        should_update,
        release_url: string_of(release_url),
        changelog_url: string_of(changelog_url()),
    }
}

// ---------------------------------------------------------------------------
// Binary names
// ---------------------------------------------------------------------------

/// Path separators of either platform.
pub open spec fn is_path_sep(c: char) -> bool {
    c == '/' || c == '\\'
}

/// What follows the last path separator (the whole string when there is none).
pub open spec fn last_path_segment(s: Seq<char>) -> Seq<char>
    decreases s.len(),
{
    if s.len() == 0 {
        s
    } else if is_path_sep(s.last()) {
        Seq::empty()
    } else {
        last_path_segment(s.drop_last()).push(s.last())
    }
}

/// `name` without a trailing `.exe` or `.EXE`.
pub open spec fn strip_exe(name: Seq<char>) -> Seq<char> {
    if name.len() >= 4 && (name.skip(name.len() - 4) == ".exe"@ || name.skip(name.len() - 4)
        == ".EXE"@) {
        name.take(name.len() - 4)
    } else {
        name
    }
}

/// File stem of an executable path: the last segment, `.exe` dropped; none when that is empty.
pub fn binary_name_from_path(path: &str) -> (r: Option<String>)
    ensures
        match r {
            Some(n) => n@ == strip_exe(last_path_segment(path@)) && n@.len() > 0,
            None => strip_exe(last_path_segment(path@)).len() == 0,
        },
{
    let cs = chars_of(path);
    let mut start: usize = cs.len();
    assert(cs@.take(cs@.len() as int) =~= cs@);
    assert(cs@ + cs@.skip(cs@.len() as int) =~= cs@);
    while start > 0 && cs[start - 1] != '/' && cs[start - 1] != '\\'
        invariant
            start <= cs@.len(),
            last_path_segment(cs@) == last_path_segment(cs@.take(start as int)) + cs@.skip(
                start as int,
            ),
        decreases start,
    {
        let ghost t = cs@.take(start as int);
        assert(t.drop_last() =~= cs@.take(start - 1));
        assert(cs@.skip(start - 1) =~= seq![cs@[start - 1]] + cs@.skip(start as int));
        assert(last_path_segment(t) == last_path_segment(cs@.take(start - 1)).push(cs@[start
            - 1]));
        assert(last_path_segment(cs@.take(start - 1)).push(cs@[start - 1]) + cs@.skip(
            start as int,
        ) =~= last_path_segment(cs@.take(start - 1)) + cs@.skip(start - 1));
        start -= 1;
    }
    proof {
        let t = cs@.take(start as int);
        if start > 0 {
            assert(last_path_segment(t) =~= Seq::<char>::empty());
        } else {
            assert(t.len() == 0);
        }
        assert(last_path_segment(cs@) =~= cs@.skip(start as int));
        assert(cs@ == path@);
    }
    let mut seg: Vec<char> = Vec::new();
    let mut i: usize = start;
    while i < cs.len()
        invariant
            start <= i <= cs@.len(),
            seg@ == cs@.subrange(start as int, i as int),
        decreases cs@.len() - i,
    {
        seg.push(cs[i]);
        assert(cs@.subrange(start as int, i as int).push(cs@[i as int]) =~= cs@.subrange(
            start as int,
            i + 1,
        ));
        i += 1;
    }
    assert(seg@ =~= last_path_segment(path@));
    let n = seg.len();
    let mut keep: usize = n;
    if n >= 4 {
        let a = seg[n - 4];
        let b = seg[n - 3];
        let c = seg[n - 2];
        let d = seg[n - 1];
        let lower = a == '.' && b == 'e' && c == 'x' && d == 'e';
        let upper = a == '.' && b == 'E' && c == 'X' && d == 'E';
        proof {
            reveal_strlit(".exe");
            reveal_strlit(".EXE");
            let tail = seg@.skip(n - 4);
            assert(tail.len() == 4);
            assert(tail[0] == a && tail[1] == b && tail[2] == c && tail[3] == d);
            if tail == ".exe"@ {
                assert(lower);
            }
            if tail == ".EXE"@ {
                assert(upper);
            }
            if lower {
                assert(tail =~= ".exe"@);
            }
            if upper {
                assert(tail =~= ".EXE"@);
            }
        }
        if lower || upper {
            keep = n - 4;
        }
    }
    let mut out: Vec<char> = Vec::new();
    let mut k: usize = 0;
    while k < keep
        invariant
            keep <= seg@.len(),
            k <= keep,
            out@ == seg@.take(k as int),
        decreases keep - k,
    {
        out.push(seg[k]);
        assert(seg@.take(k as int).push(seg@[k as int]) =~= seg@.take(k + 1));
        k += 1;
    }
    assert(out@ =~= strip_exe(seg@));
    if keep == 0 {
        None
    } else {
        Some(string_from_chars(out.as_slice()))
    }
}

/// Name of the running binary, from its path when there is one (`default_bin_name` otherwise).
pub fn current_binary_name(exe_path: Option<&str>) -> (name: String)
    ensures
        exe_path matches Some(p) && strip_exe(last_path_segment(p@)).len() > 0 ==> name@
            == strip_exe(last_path_segment(exe_path.unwrap()@)),
        !(exe_path matches Some(p) && strip_exe(last_path_segment(p@)).len() > 0) ==> name@
            == "romm-cli"@,
{
    match exe_path {
        Some(p) => match binary_name_from_path(p) {
            Some(n) => n,
            None => string_of(default_bin_name()),
        },
        None => string_of(default_bin_name()),
    }
}

/// File name of a shipped binary on this platform (`stem` followed by the executable suffix).
pub fn shipped_binary_file_name(stem: &str, exe_suffix: &str) -> (out: String)
    ensures
        out@ == stem@ + exe_suffix@,
{
    concat(stem, exe_suffix)
}

// ---------------------------------------------------------------------------
// checksums.txt
// ---------------------------------------------------------------------------

/// The pieces of `s` between `'\n'` characters (`str::split('\n')`).
pub open spec fn split_lines(s: Seq<char>) -> Seq<Seq<char>>
    decreases s.len(),
{
    if s.len() == 0 {
        seq![Seq::empty()]
    } else if s.last() == '\n' {
        split_lines(s.drop_last()).push(Seq::empty())
    } else {
        let p = split_lines(s.drop_last());
        p.update(p.len() - 1, p.last().push(s.last()))
    }
}

/// First position at or after `i` where `pat` occurs in `t`, or -1.
pub open spec fn find_from(t: Seq<char>, pat: Seq<char>, i: int) -> int
    decreases t.len() + 1 - i,
{
    if i < 0 || i + pat.len() > t.len() {
        -1
    } else if occurs_at(t, pat, i) {
        i
    } else {
        find_from(t, pat, i + 1)
    }
}

/// The `(file name, digest)` that one line of a `sha256sum`-style manifest declares, if any:
/// the line trimmed, split at its first double space; the name loses leading `*`s and
/// whitespace, the digest is lowercased. Blank lines and lines without a double space declare
/// nothing.
pub open spec fn checksum_line(line: Seq<char>) -> Option<(Seq<char>, Seq<char>)> {
    let t = trim_spec(line);
    let i = find_from(t, "  "@, 0);
    if t.len() == 0 || i < 0 {
        None
    } else {
        Some(
            (
                trim_spec(strip_leading_char(t.skip(i + 2), '*')),
                spec_to_lowercase(t.take(i)),
            ),
        )
    }
}

/// The manifest read line by line, a later line for the same name replacing an earlier one.
pub open spec fn checksum_entries(lines: Seq<Seq<char>>) -> Map<Seq<char>, Seq<char>>
    decreases lines.len(),
{
    if lines.len() == 0 {
        Map::empty()
    } else {
        let m = checksum_entries(lines.drop_last());
        match checksum_line(lines.last()) {
            Some((name, hash)) => m.insert(name, hash),
            None => m,
        }
    }
}

/// The file-name-to-digest map that a `checksums.txt` declares.
pub open spec fn checksum_map(content: Seq<char>) -> Map<Seq<char>, Seq<char>> {
    checksum_entries(split_lines(content))
}

/// Map view of a list of pairs whose first components are distinct.
pub open spec fn pairs_map(s: Seq<(String, String)>) -> Map<Seq<char>, Seq<char>>
    decreases s.len(),
{
    if s.len() == 0 {
        Map::empty()
    } else {
        pairs_map(s.drop_last()).insert(s.last().0@, s.last().1@)
    }
}

/// No two pairs share a first component.
pub open spec fn distinct_names(s: Seq<(String, String)>) -> bool {
    forall|i: int, j: int| 0 <= i < j < s.len() ==> s[i].0@ != s[j].0@
}

proof fn lemma_pairs_map_lookup(s: Seq<(String, String)>, k: int)
    requires
        distinct_names(s),
        0 <= k < s.len(),
    ensures
        pairs_map(s).contains_key(s[k].0@),
        pairs_map(s)[s[k].0@] == s[k].1@,
    decreases s.len(),
{
    if k < s.len() - 1 {
        lemma_pairs_map_lookup(s.drop_last(), k);
    }
}

proof fn lemma_pairs_map_absent(s: Seq<(String, String)>, name: Seq<char>)
    requires
        forall|i: int| 0 <= i < s.len() ==> s[i].0@ != name,
    ensures
        !pairs_map(s).contains_key(name),
    decreases s.len(),
{
    if s.len() > 0 {
        lemma_pairs_map_absent(s.drop_last(), name);
    }
}

proof fn lemma_pairs_map_update(s: Seq<(String, String)>, k: int, v: (String, String))
    requires
        distinct_names(s),
        0 <= k < s.len(),
        v.0@ == s[k].0@,
    ensures
        distinct_names(s.update(k, v)),
        pairs_map(s.update(k, v)) == pairs_map(s).insert(v.0@, v.1@),
    decreases s.len(),
{
    let t = s.update(k, v);
    if k == s.len() - 1 {
        assert(t.drop_last() =~= s.drop_last());
        lemma_pairs_map_absent(s.drop_last(), v.0@);
        assert(pairs_map(s).insert(v.0@, v.1@) =~= pairs_map(s.drop_last()).insert(v.0@, v.1@));
    } else {
        assert(t.drop_last() =~= s.drop_last().update(k, v));
        lemma_pairs_map_update(s.drop_last(), k, v);
        assert(pairs_map(t) =~= pairs_map(s).insert(v.0@, v.1@));
    }
}

/// A `sha256sum`-style manifest: file name to lowercase hex digest.
pub struct ChecksumTable {
    entries: Vec<(String, String)>,
}

impl ChecksumTable {
    #[verifier::type_invariant]
    spec fn names_distinct(self) -> bool {
        distinct_names(self.entries@)
    }

    /// The declared digests, by file name.
    pub closed spec fn view(&self) -> Map<Seq<char>, Seq<char>> {
        pairs_map(self.entries@)
    }

    /// An empty manifest.
    pub fn new() -> (t: ChecksumTable)
        ensures
            t.view() == Map::<Seq<char>, Seq<char>>::empty(),
    {
        ChecksumTable { entries: Vec::new() }
    }

    /// Number of file names declared.
    pub fn len(&self) -> (n: usize)
        ensures
            n == self.view().dom().len(),
    {
        proof {
            use_type_invariant(self);
            lemma_pairs_map_len(self.entries@);
        }
        self.entries.len()
    }

    /// Declare `hash` for `name`, replacing an earlier digest for it.
    pub fn insert(&mut self, name: String, hash: String)
        ensures
            final(self).view() == old(self).view().insert(name@, hash@),
    {
        proof {
            use_type_invariant(&*self);
        }
        let mut i: usize = 0;
        while i < self.entries.len()
            invariant
                i <= self.entries@.len(),
                self.entries@ == old(self).entries@,
                distinct_names(self.entries@),
                forall|j: int| 0 <= j < i ==> self.entries@[j].0@ != name@,
            decreases self.entries@.len() - i,
        {
            if str_eq(self.entries[i].0.as_str(), name.as_str()) {
                let ghost old_entries = self.entries@;
                let pair = (name, hash);
                proof {
                    lemma_pairs_map_update(old_entries, i as int, pair);
                }
                let mut entries = Vec::new();
                std::mem::swap(&mut entries, &mut self.entries);
                entries.set(i, pair);
                self.entries = entries;
                return ;
            }
            i += 1;
        }
        proof {
            lemma_pairs_map_absent(self.entries@, name@);
        }
        let ghost before = self.entries@;
        let mut entries = Vec::new();
        std::mem::swap(&mut entries, &mut self.entries);
        entries.push((name, hash));
        proof {
            assert(entries@.drop_last() =~= before);
            assert(distinct_names(entries@));
        }
        self.entries = entries;
    }

    /// The digest declared for `name`.
    pub fn get(&self, name: &str) -> (r: Option<&String>)
        ensures
            match r {
                Some(h) => self.view().contains_key(name@) && h@ == self.view()[name@],
                None => !self.view().contains_key(name@),
            },
    {
        proof {
            use_type_invariant(self);
        }
        let mut i: usize = 0;
        while i < self.entries.len()
            invariant
                i <= self.entries@.len(),
                distinct_names(self.entries@),
                forall|j: int| 0 <= j < i ==> self.entries@[j].0@ != name@,
            decreases self.entries@.len() - i,
        {
            if str_eq(self.entries[i].0.as_str(), name) {
                proof {
                    lemma_pairs_map_lookup(self.entries@, i as int);
                }
                return Some(&self.entries[i].1);
            }
            i += 1;
        }
        proof {
            lemma_pairs_map_absent(self.entries@, name@);
        }
        None
    }
}

proof fn lemma_pairs_map_len(s: Seq<(String, String)>)
    requires
        distinct_names(s),
    ensures
        pairs_map(s).dom().len() == s.len(),
        pairs_map(s).dom().finite(),
    decreases s.len(),
{
    if s.len() > 0 {
        let p = s.drop_last();
        lemma_pairs_map_len(p);
        lemma_pairs_map_absent(p, s.last().0@);
    }
}

/// Position of the first `"  "` in `t` at or after `from`.
fn find_double_space(t: &[char], from: usize) -> (r: Option<usize>)
    ensures
        match r {
            Some(p) => p == find_from(t@, "  "@, from as int) && p + 2 <= t@.len(),
            None => find_from(t@, "  "@, from as int) == -1,
        },
    decreases t@.len() - from,
{
    proof {
        reveal_strlit("  ");
    }
    if from >= t.len() || t.len() - from < 2 {
        return None;
    }
    if t[from] == ' ' && t[from + 1] == ' ' {
        assert(occurs_at(t@, "  "@, from as int)) by {
            assert(t@.subrange(from as int, from + 2) =~= "  "@);
        }
        return Some(from);
    }
    assert(!occurs_at(t@, "  "@, from as int)) by {
        if occurs_at(t@, "  "@, from as int) {
            assert(t@.subrange(from as int, from + 2)[0] == ' ');
            assert(t@.subrange(from as int, from + 2)[1] == ' ');
        }
    }
    find_double_space(t, from + 1)
}

/// What one manifest line declares (see `checksum_line`).
fn parse_checksum_line(line: &[char]) -> (r: Option<(String, String)>)
    ensures
        match r {
            Some((n, h)) => checksum_line(line@) == Some((n@, h@)),
            None => checksum_line(line@) is None,
        },
{
    let t = trim_chars(line);
    if t.len() == 0 {
        return None;
    }
    let p = match find_double_space(t.as_slice(), 0) {
        Some(p) => p,
        None => {
            return None;
        },
    };
    let mut hash_chars: Vec<char> = Vec::new();
    let mut i: usize = 0;
    while i < p
        invariant
            p + 2 <= t@.len(),
            i <= p,
            hash_chars@ == t@.take(i as int),
        decreases p - i,
    {
        hash_chars.push(t[i]);
        assert(t@.take(i as int).push(t@[i as int]) =~= t@.take(i + 1));
        i += 1;
    }
    let mut j: usize = p + 2;
    while j < t.len() && t[j] == '*'
        invariant
            p + 2 <= j <= t@.len(),
            strip_leading_char(t@.skip(p + 2), '*') == strip_leading_char(t@.skip(j as int), '*'),
        decreases t@.len() - j,
    {
        assert(t@.skip(j as int).drop_first() =~= t@.skip(j + 1));
        j += 1;
    }
    assert(strip_leading_char(t@.skip(j as int), '*') == t@.skip(j as int));
    let mut rest: Vec<char> = Vec::new();
    let mut k: usize = j;
    while k < t.len()
        invariant
            j <= k <= t@.len(),
            rest@ == t@.subrange(j as int, k as int),
        decreases t@.len() - k,
    {
        rest.push(t[k]);
        assert(t@.subrange(j as int, k as int).push(t@[k as int]) =~= t@.subrange(
            j as int,
            k + 1,
        ));
        k += 1;
    }
    assert(rest@ =~= t@.skip(j as int));
    let name_chars = trim_chars(rest.as_slice());
    let hash_raw = string_from_chars(hash_chars.as_slice());
    let hash = to_lowercase(hash_raw.as_str());
    let name = string_from_chars(name_chars.as_slice());
    Some((name, hash))
}

/// Read a `sha256sum`-style manifest (`<digest>  <file name>` per line).
pub fn parse_checksums(content: &str) -> (table: ChecksumTable)
    ensures
        table.view() == checksum_map(content@),
{
    let cs = chars_of(content);
    let mut table = ChecksumTable::new();
    let mut line: Vec<char> = Vec::new();
    let mut i: usize = 0;
    while i < cs.len()
        invariant
            i <= cs@.len(),
            cs@ == content@,
            split_lines(cs@.take(i as int)).len() > 0,
            line@ == split_lines(cs@.take(i as int)).last(),
            table.view() == checksum_entries(split_lines(cs@.take(i as int)).drop_last()),
        decreases cs@.len() - i,
    {
        let c = cs[i];
        let ghost pre = cs@.take(i as int);
        assert(cs@.take(i + 1).drop_last() =~= pre);
        if c == '\n' {
            let entry = parse_checksum_line(line.as_slice());
            proof {
                let ls = split_lines(pre);
                assert(split_lines(cs@.take(i + 1)).drop_last() =~= ls);
                assert(ls.drop_last() =~= ls.subrange(0, ls.len() - 1));
            }
            match entry {
                Some((n, h)) => {
                    table.insert(n, h);
                },
                None => {},
            }
            line = Vec::new();
        } else {
            proof {
                let ls = split_lines(pre);
                let ls2 = split_lines(cs@.take(i + 1));
                assert(ls2.drop_last() =~= ls.drop_last());
            }
            line.push(c);
        }
        i += 1;
    }
    assert(cs@.take(cs@.len() as int) =~= cs@);
    let entry = parse_checksum_line(line.as_slice());
    proof {
        let ls = split_lines(cs@);
        assert(ls.drop_last().push(ls.last()) =~= ls);
        assert(ls.drop_last() == ls.drop_last());
    }
    match entry {
        Some((n, h)) => {
            table.insert(n, h);
        },
        None => {},
    }
    table
}

// ---------------------------------------------------------------------------
// Digests
// ---------------------------------------------------------------------------

/// The SHA-256 digest of `data` (32 bytes), as `sha2::Sha256` computes it.
pub uninterp spec fn spec_sha256(data: Seq<u8>) -> Seq<u8>;

/// `sha2::Sha256::digest`: the SHA-256 digest of `data`.
/// Claimed: the digest depends on `data` alone and has 32 bytes (`Sha256`'s output size).
#[verifier::external_body]
fn sha256_digest(data: &[u8]) -> (d: Vec<u8>)
    ensures
        d@ == spec_sha256(data@),
        d@.len() == 32,
{
    Sha256::digest(data).to_vec()
}

/// Lowercase hexadecimal digit for `v < 16`.
pub open spec fn hex_digit(v: nat) -> char {
    if v < 10 {
        ((v + 48) as u32) as char
    } else {
        ((v + 87) as u32) as char
    }
}

/// Two lowercase hex digits per byte (`format!("{:02x}")` of each byte, concatenated).
pub open spec fn hex_lower(bytes: Seq<u8>) -> Seq<char>
    decreases bytes.len(),
{
    if bytes.len() == 0 {
        Seq::empty()
    } else {
        hex_lower(bytes.drop_last()).push(hex_digit((bytes.last() / 16) as nat)).push(
            hex_digit((bytes.last() % 16) as nat),
        )
    }
}

fn hex_digit_char(v: u8) -> (c: char)
    requires
        v < 16,
    ensures
        c == hex_digit(v as nat),
{
    if v < 10 {
        (v + 48) as char
    } else {
        (v + 87) as char
    }
}

/// Lowercase hexadecimal rendering of bytes.
pub fn to_hex_lower(bytes: &[u8]) -> (out: String)
    ensures
        out@ == hex_lower(bytes@),
{
    let mut out = String::new();
    let mut i: usize = 0;
    while i < bytes.len()
        invariant
            i <= bytes@.len(),
            out@ == hex_lower(bytes@.take(i as int)),
        decreases bytes@.len() - i,
    {
        let b = bytes[i];
        assert(bytes@.take(i + 1).drop_last() =~= bytes@.take(i as int));
        string_push(&mut out, hex_digit_char(b / 16));
        string_push(&mut out, hex_digit_char(b % 16));
        i += 1;
    }
    assert(bytes@.take(bytes@.len() as int) =~= bytes@);
    out
}

/// Lowercase hex SHA-256 of `data`.
pub fn sha256_hex(data: &[u8]) -> (out: String)
    ensures
        out@ == hex_lower(spec_sha256(data@)),
{
    let d = sha256_digest(data);
    to_hex_lower(d.as_slice())
}

/// Check a downloaded archive against the manifest: its name must be listed, and the listed
/// digest must equal the archive's SHA-256.
pub fn verify_archive_checksum(archive: &[u8], archive_name: &str, checksums_content: &str) -> (r:
    Result<(), UpdateError>)
    ensures
        ({
            let m = checksum_map(checksums_content@);
            let actual = hex_lower(spec_sha256(archive@));
            &&& r is Ok <==> (m.contains_key(archive_name@) && m[archive_name@] == actual)
            &&& !m.contains_key(archive_name@) ==> (r matches Err(
                UpdateError::MissingChecksumEntry { archive_name: n },
            ) && n@ == archive_name@)
            &&& m.contains_key(archive_name@) && m[archive_name@] != actual ==> (r matches Err(
                UpdateError::ChecksumMismatch { archive_name: n, expected: e, actual: a },
            ) && n@ == archive_name@ && e@ == m[archive_name@] && a@ == actual)
        }),
{
    let table = parse_checksums(checksums_content);
    let expected = match table.get(archive_name) {
        Some(h) => h,
        None => {
            return Err(UpdateError::MissingChecksumEntry { archive_name: string_of(archive_name) });
        },
    };
    let actual = sha256_hex(archive);
    if !str_eq(actual.as_str(), expected.as_str()) {
        return Err(
            UpdateError::ChecksumMismatch {
                archive_name: string_of(archive_name),
                expected: expected.clone(),
                actual,
            },
        );
    }
    Ok(())
}

/// Download URL of the release's `checksums.txt` among `(asset name, download URL)` pairs:
/// the first asset with that name.
pub fn checksums_download_url(assets: &[(String, String)]) -> (r: Result<String, UpdateError>)
    ensures
        match r {
            Ok(u) => exists|i: int|
                0 <= i < assets@.len() && assets@[i].0@ == "checksums.txt"@ && u@ == assets@[i].1@
                    && forall|j: int| 0 <= j < i ==> assets@[j].0@ != "checksums.txt"@,
            Err(e) => e is MissingChecksumsAsset && forall|j: int|
                0 <= j < assets@.len() ==> assets@[j].0@ != "checksums.txt"@,
        },
{
    let mut i: usize = 0;
    while i < assets.len()
        invariant
            i <= assets@.len(),
            forall|j: int| 0 <= j < i ==> assets@[j].0@ != "checksums.txt"@,
        decreases assets@.len() - i,
    {
        if str_eq(assets[i].0.as_str(), checksums_asset_name()) {
            return Ok(assets[i].1.clone());
        }
        i += 1;
    }
    Err(UpdateError::MissingChecksumsAsset)
}

} // verus!
