//! Path browser state: the editable path bar with a character cursor, the listing of a
//! directory (filtered, sorted, labelled), and what a key does.
//!
//! Reading directories, resolving relative paths and checking what exists belong to the front
//! end; it hands this state directory listings and carries out the requests it returns.

use vstd::prelude::*;
use crate::keys::{KeyCode, KeyPress};
use crate::text::{
    byte_len, chars_before, chars_of, char_len_utf8, char_width, concat, lemma_insert_prefix,
    lemma_prefix_boundary, lemma_prefix_step, lex_le, lex_le_str, on_char_boundary,
    seq_starts_with, spec_to_lowercase, str_byte_len, str_starts_with, string_insert, string_of,
    string_remove, to_lowercase, trim, trim_spec,
};

verus! {

/// Whether a directory or a regular file is picked.
#[derive(Debug, Clone, Copy, PartialEq, Eq, Structural)]
pub enum PathPickerMode {
    Directory,
    File,
}

/// Which part of the picker takes keys.
#[derive(Debug, Clone, Copy, PartialEq, Eq, Structural)]
pub enum PathPickerFocus {
    PathBar,
    List,
}

/// One directory or regular file of a listing: its display name, the name its order uses,
/// and its path.
#[derive(Debug)]
pub struct DirEntry {
    pub name: String,
    pub sort_name: String,
    pub path: String,
    pub is_dir: bool,
}

/// One row of the list. A row without a path is the "use this folder" row.
#[derive(Debug)]
pub struct ListEntry {
    pub label: String,
    pub path: Option<String>,
    pub is_dir: bool,
    pub is_use_here: bool,
}

pub type DirEntryView = (Seq<char>, Seq<char>, Seq<char>, bool);

pub type ListEntryView = (Seq<char>, Option<Seq<char>>, bool, bool);

impl DirEntry {
    pub open spec fn view(&self) -> DirEntryView {
        (self.name@, self.sort_name@, self.path@, self.is_dir)
    }
}

impl ListEntry {
    pub open spec fn view(&self) -> ListEntryView {
        (self.label@, opt_str(self.path), self.is_dir, self.is_use_here)
    }
}

/// An optional string's characters.
pub open spec fn opt_str(o: Option<String>) -> Option<Seq<char>> {
    match o {
        Some(p) => Some(p@),
        None => None,
    }
}

pub open spec fn dir_views(s: Seq<DirEntry>) -> Seq<DirEntryView> {
    s.map_values(|e: DirEntry| e.view())
}

pub open spec fn list_views(s: Seq<ListEntry>) -> Seq<ListEntryView> {
    s.map_values(|e: ListEntry| e.view())
}

// ---------------------------------------------------------------------------
// Listing
// ---------------------------------------------------------------------------

/// The entry's name passes the typed-segment filter (lowercased prefix).
pub open spec fn passes(e: DirEntryView, filter: Option<Seq<char>>) -> bool {
    match filter {
        None => true,
        Some(p) => seq_starts_with(spec_to_lowercase(e.0), p),
    }
}

/// The directories (`dirs`) or the files of `es` that pass the filter, in order.
pub open spec fn kept(es: Seq<DirEntryView>, filter: Option<Seq<char>>, dirs: bool) -> Seq<
    DirEntryView,
>
    decreases es.len(),
{
    if es.len() == 0 {
        seq![]
    } else {
        let r = kept(es.drop_last(), filter, dirs);
        if es.last().3 == dirs && passes(es.last(), filter) {
            r.push(es.last())
        } else {
            r
        }
    }
}

/// Order of the listing: lowercase names.
pub open spec fn name_le(a: DirEntryView, b: DirEntryView) -> bool {
    lex_le(spec_to_lowercase(a.1), spec_to_lowercase(b.1))
}

/// `x` inserted after the last element not greater than it (a stable insertion).
pub open spec fn insert_by_name(s: Seq<DirEntryView>, x: DirEntryView) -> Seq<DirEntryView>
    decreases s.len(),
{
    if s.len() == 0 || name_le(s.last(), x) {
        s.push(x)
    } else {
        insert_by_name(s.drop_last(), x).push(s.last())
    }
}

/// Stable sort by lowercase name (what `sort_by` on the lowercase names yields).
pub open spec fn sort_by_name(s: Seq<DirEntryView>) -> Seq<DirEntryView>
    decreases s.len(),
{
    if s.len() == 0 {
        s
    } else {
        insert_by_name(sort_by_name(s.drop_last()), s.last())
    }
}

/// The "use this folder" row.
pub open spec fn use_here_row() -> ListEntryView {
    ("< Use this folder >"@, None, true, true)
}

/// The rows of a listing: "use this folder" (directory mode), the parent, the directories,
/// then the files.
pub open spec fn listing_rows(
    mode: PathPickerMode,
    parent: Option<Seq<char>>,
    ds: Seq<DirEntryView>,
    fs: Seq<DirEntryView>,
) -> Seq<ListEntryView> {
    (if mode == PathPickerMode::Directory {
        seq![use_here_row()]
    } else {
        seq![]
    }) + (match parent {
        Some(p) => seq![(".."@, Some(p), true, false)],
        None => seq![],
    }) + ds.map_values(|d: DirEntryView| ("["@ + d.0 + "]"@, Some(d.2), true, false))
        + fs.map_values(
        |f: DirEntryView|
            (
                if mode == PathPickerMode::File {
                    f.0
                } else {
                    f.0 + "  (file)"@
                },
                Some(f.2),
                false,
                false,
            ),
    )
}

fn copy_dir_entry(e: &DirEntry) -> (r: DirEntry)
    ensures
        r.view() == e.view(),
{
    DirEntry {
        name: string_of(e.name.as_str()),
        sort_name: string_of(e.sort_name.as_str()),
        path: string_of(e.path.as_str()),
        is_dir: e.is_dir,
    }
}

fn name_le_exec(a: &DirEntry, b: &DirEntry) -> (r: bool)
    ensures
        r == name_le(a.view(), b.view()),
{
    let la = to_lowercase(a.sort_name.as_str());
    let lb = to_lowercase(b.sort_name.as_str());
    lex_le_str(la.as_str(), lb.as_str())
}

proof fn lemma_insert_by_name_at(s: Seq<DirEntryView>, x: DirEntryView, j: int)
    requires
        0 <= j <= s.len(),
        j == 0 || name_le(s[j - 1], x),
        forall|k: int| j <= k < s.len() ==> !name_le(#[trigger] s[k], x),
    ensures
        insert_by_name(s, x) == s.insert(j, x),
    decreases s.len(),
{
    if j == s.len() {
        assert(s.insert(j, x) =~= s.push(x));
    } else {
        lemma_insert_by_name_at(s.drop_last(), x, j);
        assert(s.insert(j, x) =~= s.drop_last().insert(j, x).push(s.last()));
    }
}

/// The directories (or files) of `es` that pass the filter, sorted by lowercase name.
fn kept_sorted(es: &Vec<DirEntry>, filter: &Option<String>, dirs: bool) -> (out: Vec<DirEntry>)
    ensures
        dir_views(out@) == sort_by_name(kept(dir_views(es@), opt_str(*filter), dirs)),
{
    let ghost f = opt_str(*filter);
    let mut out: Vec<DirEntry> = Vec::new();
    let mut i: usize = 0;
    while i < es.len()
        invariant
            i <= es@.len(),
            f == opt_str(*filter),
            dir_views(out@) == sort_by_name(kept(dir_views(es@.take(i as int)), f, dirs)),
        decreases es@.len() - i,
    {
        let e = &es[i];
        let pass = match filter {
            Some(p) => {
                let lower = to_lowercase(e.name.as_str());
                str_starts_with(lower.as_str(), p.as_str())
            },
            None => true,
        };
        proof {
            assert(dir_views(es@.take(i + 1)).drop_last() =~= dir_views(es@.take(i as int)));
            assert(dir_views(es@.take(i + 1)).last() == e.view());
            assert(pass == passes(e.view(), f));
            let r = kept(dir_views(es@.take(i as int)), f, dirs);
            assert(r.push(e.view()).drop_last() =~= r);
        }
        if e.is_dir == dirs && pass {
            let x = copy_dir_entry(e);
            let mut j: usize = out.len();
            while j > 0 && !name_le_exec(&out[j - 1], &x)
                invariant
                    j <= out@.len(),
                    forall|k: int| j <= k < out@.len() ==> !name_le(#[trigger] out@[k].view(), x.view()),
                decreases j,
            {
                j -= 1;
            }
            proof {
                let s = dir_views(out@);
                assert forall|k: int| j <= k < s.len() implies !name_le(#[trigger] s[k], x.view()) by {
                    assert(s[k] == out@[k].view());
                }
                if j > 0 {
                    assert(s[j - 1] == out@[j - 1].view());
                }
                lemma_insert_by_name_at(s, x.view(), j as int);
            }
            let ghost before = out@;
            out.insert(j, x);
            assert(dir_views(out@) =~= dir_views(before).insert(j as int, x.view()));
        }
        i += 1;
    }
    assert(es@.take(es@.len() as int) =~= es@);
    out
}

fn push_row(v: &mut Vec<ListEntry>, label: String, path: Option<String>, is_dir: bool, is_use_here: bool)
    ensures
        list_views(final(v)@) == list_views(old(v)@).push(
            (label@, opt_str(path), is_dir, is_use_here),
        ),
{
    let ghost pv = opt_str(path);
    v.push(ListEntry { label, path, is_dir, is_use_here });
    assert(list_views(v@) =~= list_views(old(v)@).push((label@, pv, is_dir, is_use_here)));
}

// ---------------------------------------------------------------------------
// The picker
// ---------------------------------------------------------------------------

/// What a key in the picker produced, for the screen that holds it.
#[derive(Debug, Clone, PartialEq, Eq)]
pub enum PathPickerEvent {
    /// No completion; keep browsing.
    Browsing,
    /// The user chose this path (the caller validates it with its own rules).
    Confirmed(String),
}

/// What the file system holds at a resolved path (symbolic links followed).
#[derive(Debug, Clone, Copy, PartialEq, Eq, Structural)]
pub enum PathKind {
    /// Nothing is there (or it cannot be read).
    Missing,
    Directory,
    File,
    /// Something else, such as a device.
    Other,
}

/// Confirming a typed path (`resolved`, already made absolute) that names `kind`: in directory
/// mode anything but an existing non-directory is accepted (a missing directory is created
/// later); in file mode only an existing regular file is.
pub fn try_confirm_event(mode: PathPickerMode, resolved: String, kind: PathKind) -> (e: PathPickerEvent)
    ensures
        e == (match mode {
            PathPickerMode::Directory => if kind == PathKind::File || kind == PathKind::Other {
                PathPickerEvent::Browsing
            } else {
                PathPickerEvent::Confirmed(resolved)
            },
            PathPickerMode::File => if kind == PathKind::File {
                PathPickerEvent::Confirmed(resolved)
            } else {
                PathPickerEvent::Browsing
            },
        }),
{
    match mode {
        PathPickerMode::Directory => match kind {
            PathKind::File | PathKind::Other => PathPickerEvent::Browsing,
            _ => PathPickerEvent::Confirmed(resolved),
        },
        PathPickerMode::File => match kind {
            PathKind::File => PathPickerEvent::Confirmed(resolved),
            _ => PathPickerEvent::Browsing,
        },
    }
}

/// What the front end does after a key.
#[derive(Debug)]
pub enum PickerRequest {
    Nothing,
    /// This path was chosen.
    Confirmed(String),
    /// Directory mode: confirm this typed path (relative paths resolve against the working
    /// directory; it may not exist yet).
    ConfirmTyped(String),
    /// Confirm this typed path if it names an existing directory (directory mode; a missing
    /// path counts) or an existing regular file (file mode).
    TryConfirm(String),
    /// The path text changed: resolve the directory to list from it, then list it.
    ResolveAndList,
    /// List `browse_dir` again.
    List,
}

/// A path browser.
pub struct PathPicker {
    pub mode: PathPickerMode,
    pub focus: PathPickerFocus,
    /// The editable path (may be relative or absolute).
    pub path_text: String,
    /// Byte offset of the cursor in `path_text`; it always starts a character.
    pub path_cursor: usize,
    /// The directory being listed.
    pub browse_dir: String,
    pub entries: Vec<ListEntry>,
    pub selected: usize,
    pub io_error: Option<String>,
}

proof fn lemma_prefix_strict(t: Seq<char>, i: int, j: int)
    requires
        0 <= i <= j <= t.len(),
    ensures
        byte_len(t.take(i)) + (j - i) <= byte_len(t.take(j)),
    decreases j - i,
{
    if i < j {
        lemma_prefix_strict(t, i, j - 1);
        lemma_prefix_step(t, j - 1);
        vstd::utf8::char_is_scalar(t[j - 1]);
    }
}

/// The character index whose prefix ends at byte `cursor`.
fn char_index(cs: &Vec<char>, cursor: usize, Ghost(k): Ghost<int>) -> (i: usize)
    requires
        0 <= k <= cs@.len(),
        cursor == byte_len(cs@.take(k)),
    ensures
        i == k,
{
    let n = cs.len();
    let mut i: usize = 0;
    let mut acc: usize = 0;
    while acc < cursor
        invariant
            n == cs@.len(),
            0 <= k <= cs@.len(),
            cursor == byte_len(cs@.take(k)),
            i <= k,
            acc == byte_len(cs@.take(i as int)),
        decreases k - i,
    {
        proof {
            if i >= k {
                lemma_prefix_strict(cs@, k, i as int);
            }
            lemma_prefix_step(cs@, i as int);
            lemma_prefix_strict(cs@, i + 1, k);
        }
        acc = acc + char_len_utf8(cs[i]);
        i += 1;
    }
    proof {
        if i < k {
            lemma_prefix_strict(cs@, i + 1, k);
            lemma_prefix_step(cs@, i as int);
            vstd::utf8::char_is_scalar(cs@[i as int]);
        }
    }
    i
}

impl PathPicker {
    /// Characters before the cursor.
    pub open spec fn cursor_index(&self) -> int {
        chars_before(self.path_text@, self.path_cursor as int)
    }

    /// The cursor ends a prefix of whole characters; the selection is a row (or 0 without
    /// rows).
    pub open spec fn wf(&self) -> bool {
        &&& 0 <= self.cursor_index() <= self.path_text@.len()
        &&& self.path_cursor == byte_len(self.path_text@.take(self.cursor_index()))
        &&& if self.entries@.len() == 0 {
            self.selected == 0
        } else {
            self.selected < self.entries@.len()
        }
    }

    /// A picker on `initial_path`, listing `browse_dir` (no rows until `set_listing`).
    pub fn new(mode: PathPickerMode, initial_path: String, browse_dir: String) -> (p: PathPicker)
        ensures
            p.wf(),
            p.mode == mode,
            p.focus == PathPickerFocus::PathBar,
            p.path_text == initial_path,
            p.cursor_index() == initial_path@.len(),
            p.browse_dir == browse_dir,
            p.entries@.len() == 0,
            p.io_error is None,
    {
        let cursor = str_byte_len(initial_path.as_str());
        proof {
            lemma_prefix_boundary(initial_path@, initial_path@.len() as int);
            assert(initial_path@.take(initial_path@.len() as int) =~= initial_path@);
        }
        PathPicker {
            mode,
            focus: PathPickerFocus::PathBar,
            path_text: initial_path,
            path_cursor: cursor,
            browse_dir,
            entries: Vec::new(),
            selected: 0,
            io_error: None,
        }
    }

    /// The path, trimmed.
    pub fn path_trimmed(&self) -> (t: String)
        ensures
            t@ == trim_spec(self.path_text@),
    {
        trim(self.path_text.as_str())
    }

    /// Replace the path text; the cursor goes to its end (then resolve and list).
    pub fn set_path_text(&mut self, s: String)
        requires
            old(self).wf(),
        ensures
            final(self).wf(),
            final(self).path_text == s,
            final(self).cursor_index() == s@.len(),
            *final(self) == (PathPicker {
                path_text: s,
                path_cursor: final(self).path_cursor,
                ..*old(self)
            }),
    {
        let cursor = str_byte_len(s.as_str());
        proof {
            lemma_prefix_boundary(s@, s@.len() as int);
            assert(s@.take(s@.len() as int) =~= s@);
        }
        self.path_text = s;
        self.path_cursor = cursor;
    }

    /// The directory to list was resolved again from the path text.
    pub fn set_browse_dir(&mut self, dir: String)
        ensures
            *final(self) == (PathPicker { browse_dir: dir, io_error: None, ..*old(self) }),
    {
        self.browse_dir = dir;
        self.io_error = None;
    }

    /// Rows for a listing of `browse_dir` (`Err`: why it could not be read), its parent, and
    /// the lowercase prefix that names must start with. The selection stays, within the rows.
    pub fn set_listing(
        &mut self,
        listing: Result<Vec<DirEntry>, String>,
        parent: Option<String>,
        name_filter: Option<String>,
    )
        requires
            old(self).wf(),
        ensures
            final(self).wf(),
            match listing {
                Ok(es) => {
                    &&& list_views(final(self).entries@) == listing_rows(
                        old(self).mode,
                        opt_str(parent),
                        sort_by_name(kept(dir_views(es@), opt_str(name_filter), true)),
                        sort_by_name(kept(dir_views(es@), opt_str(name_filter), false)),
                    )
                    &&& final(self).io_error is None
                },
                Err(e) => {
                    &&& list_views(final(self).entries@) == (if old(self).mode
                        == PathPickerMode::Directory {
                        seq![use_here_row()]
                    } else {
                        seq![]
                    })
                    &&& final(self).io_error == Some(e)
                },
            },
            final(self).selected == if final(self).entries@.len() == 0 {
                0
            } else if old(self).selected < final(self).entries@.len() - 1 {
                old(self).selected
            } else {
                (final(self).entries@.len() - 1) as usize
            },
            final(self).mode == old(self).mode,
            final(self).focus == old(self).focus,
            final(self).path_text == old(self).path_text,
            final(self).path_cursor == old(self).path_cursor,
            final(self).browse_dir == old(self).browse_dir,
    {
        let mut v: Vec<ListEntry> = Vec::new();
        let ghost head = if self.mode == PathPickerMode::Directory {
            seq![use_here_row()]
        } else {
            Seq::<ListEntryView>::empty()
        };
        if self.mode == PathPickerMode::Directory {
            push_row(&mut v, string_of("< Use this folder >"), None, true, true);
        }
        assert(list_views(v@) =~= head);
        match listing {
            Err(e) => {
                self.io_error = Some(e);
            },
            Ok(es) => {
                self.io_error = None;
                let ds = kept_sorted(&es, &name_filter, true);
                let fs = kept_sorted(&es, &name_filter, false);
                let ghost pv = opt_str(parent);
                match parent {
                    Some(p) => push_row(&mut v, string_of(".."), Some(p), true, false),
                    None => {},
                }
                let ghost head2 = list_views(v@);
                assert(head2 =~= head + match pv {
                    Some(p) => seq![(".."@, Some(p), true, false)],
                    None => Seq::<ListEntryView>::empty(),
                });
                let ghost dview = dir_views(ds@).map_values(
                    |d: DirEntryView| ("["@ + d.0 + "]"@, Some(d.2), true, false),
                );
                let mut i: usize = 0;
                while i < ds.len()
                    invariant
                        i <= ds@.len(),
                        dview == dir_views(ds@).map_values(
                            |d: DirEntryView| ("["@ + d.0 + "]"@, Some(d.2), true, false),
                        ),
                        list_views(v@) == head2 + dview.take(i as int),
                    decreases ds@.len() - i,
                {
                    let a = concat("[", ds[i].name.as_str());
                    let label = concat(a.as_str(), "]");
                    push_row(&mut v, label, Some(string_of(ds[i].path.as_str())), true, false);
                    i += 1;
                    assert(dview.take(i as int) =~= dview.take(i - 1).push(dview[i - 1]));
                    assert(dir_views(ds@)[i - 1] == ds@[i - 1].view());
                }
                assert(dview.take(ds@.len() as int) =~= dview);
                let ghost head3 = list_views(v@);
                let ghost mode = self.mode;
                let ghost fview = dir_views(fs@).map_values(
                    |f: DirEntryView|
                        (
                            if mode == PathPickerMode::File {
                                f.0
                            } else {
                                f.0 + "  (file)"@
                            },
                            Some(f.2),
                            false,
                            false,
                        ),
                );
                let mut j: usize = 0;
                while j < fs.len()
                    invariant
                        j <= fs@.len(),
                        mode == self.mode,
                        fview == dir_views(fs@).map_values(
                            |f: DirEntryView|
                                (
                                    if mode == PathPickerMode::File {
                                        f.0
                                    } else {
                                        f.0 + "  (file)"@
                                    },
                                    Some(f.2),
                                    false,
                                    false,
                                ),
                        ),
                        list_views(v@) == head3 + fview.take(j as int),
                    decreases fs@.len() - j,
                {
                    let label = if self.mode == PathPickerMode::File {
                        string_of(fs[j].name.as_str())
                    } else {
                        concat(fs[j].name.as_str(), "  (file)")
                    };
                    push_row(&mut v, label, Some(string_of(fs[j].path.as_str())), false, false);
                    j += 1;
                    assert(fview.take(j as int) =~= fview.take(j - 1).push(fview[j - 1]));
                    assert(dir_views(fs@)[j - 1] == fs@[j - 1].view());
                }
                assert(fview.take(fs@.len() as int) =~= fview);
                assert(list_views(v@) =~= listing_rows(
                    self.mode,
                    pv,
                    dir_views(ds@),
                    dir_views(fs@),
                ));
            },
        }
        let n = v.len();
        self.selected = if n == 0 {
            0
        } else if self.selected < n - 1 {
            self.selected
        } else {
            n - 1
        };
        self.entries = v;
    }
}

impl PathPicker {
    /// What a key does to the path bar: `o` before, `n` after, `r` the request.
    pub open spec fn bar_post(o: PathPicker, n: PathPicker, code: KeyCode, r: PickerRequest) -> bool {
        let t = o.path_text@;
        let k = o.cursor_index();
        match code {
            KeyCode::Enter => n == o && if trim_spec(t).len() == 0 {
                r is Nothing
            } else {
                r matches PickerRequest::TryConfirm(x) && x@ == trim_spec(t)
            },
            KeyCode::Char(c) => {
                &&& n.path_text@ == t.take(k) + seq![c] + t.skip(k)
                &&& n.path_cursor == byte_len(t.take(k).push(c))
                &&& n == (PathPicker { path_text: n.path_text, path_cursor: n.path_cursor, ..o })
                &&& r is ResolveAndList
            },
            KeyCode::Backspace => if k > 0 {
                &&& n.path_text@ == t.remove(k - 1)
                &&& n.path_cursor == byte_len(t.take(k - 1))
                &&& n == (PathPicker { path_text: n.path_text, path_cursor: n.path_cursor, ..o })
                &&& r is ResolveAndList
            } else {
                n == o && r is Nothing
            },
            KeyCode::Left => r is Nothing && n == (PathPicker {
                path_cursor: if k > 0 {
                    byte_len(t.take(k - 1)) as usize
                } else {
                    o.path_cursor
                },
                ..o
            }),
            KeyCode::Right => r is Nothing && n == (PathPicker {
                path_cursor: if k < t.len() {
                    byte_len(t.take(k + 1)) as usize
                } else {
                    o.path_cursor
                },
                ..o
            }),
            KeyCode::Up | KeyCode::Down => r is Nothing && n == (PathPicker {
                focus: PathPickerFocus::List,
                ..o
            }),
            _ => n == o && r is Nothing,
        }
    }

    fn bar_key(&mut self, code: KeyCode) -> (r: PickerRequest)
        requires
            old(self).wf(),
            byte_len(old(self).path_text@) + 4 <= usize::MAX,
        ensures
            final(self).wf(),
            Self::bar_post(*old(self), *final(self), code, r),
    {
        let ghost t = self.path_text@;
        let ghost k = self.cursor_index();
        proof {
            lemma_prefix_boundary(t, k);
        }
        match code {
            KeyCode::Enter => {
                let tt = trim(self.path_text.as_str());
                if tt.as_str().is_empty() {
                    PickerRequest::Nothing
                } else {
                    PickerRequest::TryConfirm(tt)
                }
            },
            KeyCode::Char(c) => {
                let pos = self.path_cursor;
                string_insert(&mut self.path_text, pos, c);
                self.path_cursor = pos + char_len_utf8(c);
                proof {
                    lemma_insert_prefix(t, k, c);
                    let u = self.path_text@;
                    lemma_prefix_boundary(u, k + 1);
                }
                PickerRequest::ResolveAndList
            },
            KeyCode::Backspace => {
                if self.path_cursor == 0 {
                    proof {
                        if k > 0 {
                            lemma_prefix_strict(t, 0, k);
                        }
                    }
                    return PickerRequest::Nothing;
                }
                let cs = chars_of(self.path_text.as_str());
                let i = char_index(&cs, self.path_cursor, Ghost(k));
                assert(i > 0);
                proof {
                    lemma_prefix_step(t, k - 1);
                    lemma_prefix_boundary(t, k - 1);
                }
                let start = self.path_cursor - char_len_utf8(cs[i - 1]);
                string_remove(&mut self.path_text, start);
                self.path_cursor = start;
                proof {
                    let u = self.path_text@;
                    assert(u.take(k - 1) =~= t.take(k - 1));
                    lemma_prefix_boundary(u, k - 1);
                }
                PickerRequest::ResolveAndList
            },
            KeyCode::Left => {
                if self.path_cursor > 0 {
                    let cs = chars_of(self.path_text.as_str());
                    let i = char_index(&cs, self.path_cursor, Ghost(k));
                    proof {
                        if k == 0 {
                            assert(t.take(0) =~= Seq::<char>::empty());
                            crate::text::lemma_byte_len_zero(t.take(0));
                        }
                        lemma_prefix_step(t, k - 1);
                        lemma_prefix_boundary(t, k - 1);
                    }
                    self.path_cursor = self.path_cursor - char_len_utf8(cs[i - 1]);
                } else {
                    proof {
                        if k > 0 {
                            lemma_prefix_strict(t, 0, k);
                        }
                    }
                }
                PickerRequest::Nothing
            },
            KeyCode::Right => {
                let len = str_byte_len(self.path_text.as_str());
                if self.path_cursor < len {
                    let cs = chars_of(self.path_text.as_str());
                    let i = char_index(&cs, self.path_cursor, Ghost(k));
                    proof {
                        if k == t.len() {
                            assert(t.take(k) =~= t);
                        }
                        lemma_prefix_step(t, k);
                        lemma_prefix_boundary(t, k + 1);
                    }
                    self.path_cursor = self.path_cursor + char_len_utf8(cs[i]);
                } else {
                    proof {
                        if k < t.len() {
                            lemma_prefix_strict(t, k, t.len() as int);
                            assert(t.take(t.len() as int) =~= t);
                        }
                    }
                }
                PickerRequest::Nothing
            },
            KeyCode::Up | KeyCode::Down => {
                self.focus = PathPickerFocus::List;
                PickerRequest::Nothing
            },
            _ => PickerRequest::Nothing,
        }
    }
}

impl PathPicker {
    /// Enter on the selected row.
    pub open spec fn enter_post(o: PathPicker, n: PathPicker, r: PickerRequest) -> bool {
        let e = o.entries@[o.selected as int];
        if e.is_use_here {
            n == o && (r matches PickerRequest::Confirmed(x) && x@ == o.browse_dir@)
        } else if e.path is None {
            n == o && r is Nothing
        } else if e.is_dir {
            &&& n.browse_dir@ == e.path->0@
            &&& n.path_text@ == e.path->0@
            &&& n.cursor_index() == n.path_text@.len()
            &&& n == (PathPicker {
                browse_dir: n.browse_dir,
                path_text: n.path_text,
                path_cursor: n.path_cursor,
                selected: 0,
                ..o
            })
            &&& r is List
        } else if o.mode == PathPickerMode::File {
            n == o && (r matches PickerRequest::Confirmed(x) && x@ == e.path->0@)
        } else {
            n == o && r is Nothing
        }
    }

    /// Keys that move in the list rather than type into the path.
    pub open spec fn list_letter(c: char) -> bool {
        c == 'j' || c == 'k' || c == 'h' || c == 'l' || c == 'J' || c == 'K' || c == 'H' || c == 'L'
    }

    /// What a key does to the list.
    pub open spec fn list_post(o: PathPicker, n: PathPicker, code: KeyCode, r: PickerRequest) -> bool {
        let m = o.entries@.len();
        let sel = o.selected;
        if m == 0 {
            n == o && r is Nothing
        } else if code is Enter {
            Self::enter_post(o, n, r)
        } else if code is Up || code == KeyCode::Char('k') || code == KeyCode::Char('K') {
            r is Nothing && n == if sel == 0 {
                PathPicker { focus: PathPickerFocus::PathBar, ..o }
            } else {
                PathPicker { selected: (sel - 1) as usize, ..o }
            }
        } else if code is Down || code == KeyCode::Char('j') || code == KeyCode::Char('J') {
            r is Nothing && n == (PathPicker {
                selected: if sel + 1 < m - 1 {
                    (sel + 1) as usize
                } else {
                    (m - 1) as usize
                },
                ..o
            })
        } else if code is Home {
            r is Nothing && n == (PathPicker { selected: 0, ..o })
        } else if code is End {
            r is Nothing && n == (PathPicker { selected: (m - 1) as usize, ..o })
        } else if code is Left || code == KeyCode::Char('h') || code is Right || code
            == KeyCode::Char('l') {
            r is Nothing && n == (PathPicker { focus: PathPickerFocus::PathBar, ..o })
        } else if code is Char && !Self::list_letter(code->Char_0) {
            Self::bar_post(PathPicker { focus: PathPickerFocus::PathBar, ..o }, n, code, r)
        } else {
            n == o && r is Nothing
        }
    }

    /// What `handle_key` does.
    pub open spec fn key_post(o: PathPicker, n: PathPicker, key: KeyPress, r: PickerRequest) -> bool {
        let t = trim_spec(o.path_text@);
        if key.ctrl && key.code is Enter {
            n == o && if o.mode == PathPickerMode::Directory {
                if t.len() == 0 {
                    r matches PickerRequest::Confirmed(x) && x@ == o.browse_dir@
                } else {
                    r matches PickerRequest::ConfirmTyped(x) && x@ == t
                }
            } else if t.len() == 0 {
                r is Nothing
            } else {
                r matches PickerRequest::TryConfirm(x) && x@ == t
            }
        } else if key.code is Tab {
            r is Nothing && n == (PathPicker {
                focus: if o.focus == PathPickerFocus::PathBar {
                    PathPickerFocus::List
                } else {
                    PathPickerFocus::PathBar
                },
                ..o
            })
        } else if key.code is Esc {
            n == o && r is Nothing
        } else if o.focus == PathPickerFocus::PathBar {
            Self::bar_post(o, n, key.code, r)
        } else {
            Self::list_post(o, n, key.code, r)
        }
    }

    fn enter_list_selection(&mut self) -> (r: PickerRequest)
        requires
            old(self).wf(),
            old(self).entries@.len() > 0,
        ensures
            final(self).wf(),
            Self::enter_post(*old(self), *final(self), r),
    {
        let idx = self.selected;
        let e = &self.entries[idx];
        if e.is_use_here {
            return PickerRequest::Confirmed(string_of(self.browse_dir.as_str()));
        }
        let target = match &e.path {
            Some(p) => string_of(p.as_str()),
            None => {
                return PickerRequest::Nothing;
            },
        };
        if e.is_dir {
            let cursor = str_byte_len(target.as_str());
            proof {
                lemma_prefix_boundary(target@, target@.len() as int);
                assert(target@.take(target@.len() as int) =~= target@);
            }
            self.browse_dir = string_of(target.as_str());
            self.path_text = target;
            self.path_cursor = cursor;
            self.selected = 0;
            PickerRequest::List
        } else if self.mode == PathPickerMode::File {
            PickerRequest::Confirmed(target)
        } else {
            PickerRequest::Nothing
        }
    }

    fn list_key(&mut self, code: KeyCode) -> (r: PickerRequest)
        requires
            old(self).wf(),
            byte_len(old(self).path_text@) + 4 <= usize::MAX,
        ensures
            final(self).wf(),
            Self::list_post(*old(self), *final(self), code, r),
    {
        let m = self.entries.len();
        if m == 0 {
            return PickerRequest::Nothing;
        }
        let sel = self.selected;
        match code {
            KeyCode::Enter => self.enter_list_selection(),
            KeyCode::Up | KeyCode::Char('k') | KeyCode::Char('K') => {
                if sel == 0 {
                    self.focus = PathPickerFocus::PathBar;
                } else {
                    self.selected = sel - 1;
                }
                PickerRequest::Nothing
            },
            KeyCode::Down | KeyCode::Char('j') | KeyCode::Char('J') => {
                self.selected = if sel + 1 < m - 1 {
                    sel + 1
                } else {
                    m - 1
                };
                PickerRequest::Nothing
            },
            KeyCode::Home => {
                self.selected = 0;
                PickerRequest::Nothing
            },
            KeyCode::End => {
                self.selected = m - 1;
                PickerRequest::Nothing
            },
            KeyCode::Left | KeyCode::Char('h') | KeyCode::Right | KeyCode::Char('l') => {
                self.focus = PathPickerFocus::PathBar;
                PickerRequest::Nothing
            },
            KeyCode::Char(c) => {
                if c == 'H' || c == 'L' {
                    PickerRequest::Nothing
                } else {
                    self.focus = PathPickerFocus::PathBar;
                    self.bar_key(code)
                }
            },
            _ => PickerRequest::Nothing,
        }
    }

    /// One key press (Ctrl+Enter confirms the typed path; Tab switches between path and list).
    pub fn handle_key(&mut self, key: &KeyPress) -> (r: PickerRequest)
        requires
            old(self).wf(),
            byte_len(old(self).path_text@) + 4 <= usize::MAX,
        ensures
            final(self).wf(),
            Self::key_post(*old(self), *final(self), *key, r),
    {
        if key.ctrl && key.code == KeyCode::Enter {
            let t = trim(self.path_text.as_str());
            if self.mode == PathPickerMode::Directory {
                if t.as_str().is_empty() {
                    return PickerRequest::Confirmed(string_of(self.browse_dir.as_str()));
                }
                return PickerRequest::ConfirmTyped(t);
            }
            if t.as_str().is_empty() {
                return PickerRequest::Nothing;
            }
            return PickerRequest::TryConfirm(t);
        }
        match key.code {
            KeyCode::Tab => {
                self.focus = match self.focus {
                    PathPickerFocus::PathBar => PathPickerFocus::List,
                    PathPickerFocus::List => PathPickerFocus::PathBar,
                };
                PickerRequest::Nothing
            },
            KeyCode::Esc => PickerRequest::Nothing,
            _ => match self.focus {
                PathPickerFocus::PathBar => self.bar_key(key.code),
                PathPickerFocus::List => self.list_key(key.code),
            },
        }
    }

    /// The path line: a focus marker, then the text with a caret after the first
    /// `path_cursor` characters.
    pub fn path_line(&self) -> (s: String)
        ensures
            s@ == (if self.focus == PathPickerFocus::PathBar {
                "▶ "@
            } else {
                "  "@
            }) + crate::setup_wizard::with_caret(self.path_text@, self.path_cursor),
    {
        let body = crate::setup_wizard::field_with_caret(self.path_text.as_str(), self.path_cursor);
        let prefix = match self.focus {
            PathPickerFocus::PathBar => "▶ ",
            PathPickerFocus::List => "  ",
        };
        concat(prefix, body.as_str())
    }

    /// Column of the terminal cursor within the path line (None unless the path bar has the
    /// focus): past the marker, at as many characters as the cursor has bytes before it.
    pub fn cursor_column(&self) -> (c: Option<usize>)
        requires
            self.path_text@.len() + 2 <= usize::MAX,
        ensures
            self.focus == PathPickerFocus::List ==> c is None,
            self.focus == PathPickerFocus::PathBar ==> c == Some(
                (2 + if self.path_cursor < self.path_text@.len() {
                    self.path_cursor as int
                } else {
                    self.path_text@.len() as int
                }) as usize,
            ),
    {
        if self.focus != PathPickerFocus::PathBar {
            return None;
        }
        let n = chars_of(self.path_text.as_str()).len();
        let before = if self.path_cursor < n {
            self.path_cursor
        } else {
            n
        };
        Some(2 + before)
    }
}

/// In the path bar, Left then Right puts the cursor back where it was (when a character
/// stands before it).
pub proof fn lemma_left_then_right(
    o: PathPicker,
    m: PathPicker,
    n: PathPicker,
    r1: PickerRequest,
    r2: PickerRequest,
)
    requires
        o.wf(),
        o.cursor_index() > 0,
        PathPicker::bar_post(o, m, KeyCode::Left, r1),
        PathPicker::bar_post(m, n, KeyCode::Right, r2),
    ensures
        n == o,
{
    let t = o.path_text@;
    let k = o.cursor_index();
    lemma_prefix_boundary(t, k - 1);
    lemma_prefix_strict(t, k - 1, k);
    assert(m.cursor_index() == k - 1);
}

/// In the path bar, typing a character and then pressing Backspace gives the path and the
/// cursor back.
pub proof fn lemma_path_type_then_backspace(
    o: PathPicker,
    m: PathPicker,
    n: PathPicker,
    c: char,
    r1: PickerRequest,
    r2: PickerRequest,
)
    requires
        o.wf(),
        PathPicker::bar_post(o, m, KeyCode::Char(c), r1),
        PathPicker::bar_post(m, n, KeyCode::Backspace, r2),
    ensures
        n.path_text@ == o.path_text@,
        n.path_cursor == o.path_cursor,
        n.focus == o.focus,
        n.browse_dir == o.browse_dir,
        n.entries == o.entries,
        n.selected == o.selected,
{
    let t = o.path_text@;
    let k = o.cursor_index();
    let u = m.path_text@;
    lemma_insert_prefix(t, k, c);
    lemma_prefix_boundary(u, k + 1);
    assert(m.cursor_index() == k + 1);
    assert(u.remove(k) =~= t);
}

pub proof fn lemma_push_contains<A>(s: Seq<A>, a: A, y: A)
    ensures
        s.push(a).contains(y) <==> (s.contains(y) || a == y),
{
    if s.contains(y) {
        let w = choose|w: int| 0 <= w < s.len() && s[w] == y;
        assert(s.push(a)[w] == y);
    }
    if a == y {
        assert(s.push(a)[s.len() as int] == y);
    }
    if s.push(a).contains(y) {
        let w = choose|w: int| 0 <= w < s.len() + 1 && s.push(a)[w] == y;
        if w < s.len() {
            assert(s[w] == y);
        }
    }
}

proof fn lemma_kept_contains(es: Seq<DirEntryView>, f: Option<Seq<char>>, dirs: bool, x: DirEntryView)
    ensures
        kept(es, f, dirs).contains(x) <==> (es.contains(x) && x.3 == dirs && passes(x, f)),
    decreases es.len(),
{
    if es.len() > 0 {
        let init = es.drop_last();
        lemma_kept_contains(init, f, dirs, x);
        lemma_push_contains(init, es.last(), x);
        assert(init.push(es.last()) =~= es);
        lemma_push_contains(kept(init, f, dirs), es.last(), x);
    }
}

proof fn lemma_insert_by_name_contains(s: Seq<DirEntryView>, x: DirEntryView, y: DirEntryView)
    ensures
        insert_by_name(s, x).contains(y) <==> (s.contains(y) || y == x),
    decreases s.len(),
{
    lemma_push_contains(s, x, y);
    if s.len() > 0 && !name_le(s.last(), x) {
        let init = s.drop_last();
        lemma_insert_by_name_contains(init, x, y);
        lemma_push_contains(insert_by_name(init, x), s.last(), y);
        lemma_push_contains(init, s.last(), y);
        assert(init.push(s.last()) =~= s);
    }
}

proof fn lemma_sort_by_name_contains(s: Seq<DirEntryView>, y: DirEntryView)
    ensures
        sort_by_name(s).contains(y) <==> s.contains(y),
    decreases s.len(),
{
    if s.len() > 0 {
        let init = s.drop_last();
        lemma_sort_by_name_contains(init, y);
        lemma_insert_by_name_contains(sort_by_name(init), s.last(), y);
        lemma_push_contains(init, s.last(), y);
        assert(init.push(s.last()) =~= s);
    }
}

/// With a typed name filter `p`, the directories (or the files) listed are exactly the
/// entries of that kind whose lowercased name starts with `p`; so two entries whose names
/// differ only in case are listed or left out together.
pub proof fn lemma_listing_filters_by_lowercase_prefix(
    es: Seq<DirEntryView>,
    p: Seq<char>,
    dirs: bool,
    x: DirEntryView,
    y: DirEntryView,
)
    ensures
        sort_by_name(kept(es, Some(p), dirs)).contains(x) <==> (es.contains(x) && x.3 == dirs
            && seq_starts_with(spec_to_lowercase(x.0), p)),
        es.contains(x) && es.contains(y) && x.3 == y.3 && spec_to_lowercase(x.0)
            == spec_to_lowercase(y.0) ==> (sort_by_name(kept(es, Some(p), dirs)).contains(x)
            <==> sort_by_name(kept(es, Some(p), dirs)).contains(y)),
{
    lemma_sort_by_name_contains(kept(es, Some(p), dirs), x);
    lemma_sort_by_name_contains(kept(es, Some(p), dirs), y);
    lemma_kept_contains(es, Some(p), dirs, x);
    lemma_kept_contains(es, Some(p), dirs, y);
}

} // verus!
