//! Expert API browser: endpoints grouped into sections (by first tag, else by the second path
//! segment), navigated section by section.

use vstd::prelude::*;
use crate::openapi::{endpoints_view, ApiEndpoint, ApiEndpointView, EndpointRegistry};
use crate::rom_group::{keep, lemma_keep_none};
use crate::text::{
    chars_of, lemma_lex_antisym, lemma_lex_total, lemma_lex_trans, lex_le, lex_le_str, lex_lt,
    str_eq, string_from_chars, string_of,
};

verus! {

/// A group of endpoints shown under one name.
#[derive(Debug, Clone)]
pub struct Section {
    pub name: String,
    pub endpoint_indices: Vec<usize>,
}

/// Which pane has the focus.
#[derive(Debug, Clone, Copy, PartialEq, Eq, Structural)]
pub enum ViewMode {
    Sections,
    Endpoints,
}

/// API browser screen for exploring the server's endpoints.
pub struct BrowseScreen {
    pub registry: EndpointRegistry,
    pub sections: Vec<Section>,
    pub selected_section: usize,
    pub selected_endpoint: usize,
    pub view_mode: ViewMode,
}

// ---------------------------------------------------------------------------
// Section names
// ---------------------------------------------------------------------------

/// The pieces of `s` between occurrences of `c` (`str::split(c)`).
pub open spec fn split_char(s: Seq<char>, c: char) -> Seq<Seq<char>>
    decreases s.len(),
{
    if s.len() == 0 {
        seq![Seq::empty()]
    } else if s.last() == c {
        split_char(s.drop_last(), c).push(Seq::empty())
    } else {
        let p = split_char(s.drop_last(), c);
        p.update(p.len() - 1, p.last().push(s.last()))
    }
}

/// Non-empty `/`-separated segments of a path.
pub open spec fn path_parts(p: Seq<char>) -> Seq<Seq<char>> {
    keep(split_char(p, '/'), |x: Seq<char>| x.len() > 0)
}

/// The section an endpoint belongs to: its first tag; else its second path segment (`roms`
/// for `/api/roms/{id}`); else `Other`.
pub open spec fn section_name(e: ApiEndpointView) -> Seq<char> {
    if e.tags.len() > 0 {
        e.tags[0]
    } else if path_parts(e.path).len() >= 2 {
        path_parts(e.path)[1]
    } else {
        "Other"@
    }
}

proof fn lemma_split_char_nonempty(s: Seq<char>, c: char)
    ensures
        split_char(s, c).len() > 0,
    decreases s.len(),
{
    if s.len() > 0 {
        lemma_split_char_nonempty(s.drop_last(), c);
    }
}

/// Non-empty segments of `path` split at `/`.
fn path_segments(path: &str) -> (parts: Vec<Vec<char>>)
    ensures
        parts@.map_values(|v: Vec<char>| v@) == path_parts(path@),
{
    let cs = chars_of(path);
    let mut parts: Vec<Vec<char>> = Vec::new();
    let mut cur: Vec<char> = Vec::new();
    let mut i: usize = 0;
    assert(cs@.take(0) =~= Seq::<char>::empty());
    assert(split_char(Seq::<char>::empty(), '/').drop_last() =~= Seq::<Seq<char>>::empty());
    while i < cs.len()
        invariant
            i <= cs@.len(),
            cs@ == path@,
            split_char(cs@.take(i as int), '/').len() > 0,
            cur@ == split_char(cs@.take(i as int), '/').last(),
            parts@.map_values(|v: Vec<char>| v@) == keep(
                split_char(cs@.take(i as int), '/').drop_last(),
                |x: Seq<char>| x.len() > 0,
            ),
        decreases cs@.len() - i,
    {
        let c = cs[i];
        let ghost pre = cs@.take(i as int);
        assert(cs@.take(i + 1).drop_last() =~= pre);
        proof {
            lemma_split_char_nonempty(pre, '/');
        }
        if c == '/' {
            let ghost ls = split_char(pre, '/');
            assert(split_char(cs@.take(i + 1), '/').drop_last() =~= ls);
            assert(ls.drop_last().push(ls.last()) =~= ls);
            let ghost before = parts@.map_values(|v: Vec<char>| v@);
            if cur.len() > 0 {
                let mut seg: Vec<char> = Vec::new();
                std::mem::swap(&mut seg, &mut cur);
                parts.push(seg);
                assert(parts@.map_values(|v: Vec<char>| v@) =~= before.push(ls.last()));
            } else {
                cur = Vec::new();
            }
        } else {
            proof {
                let ls = split_char(pre, '/');
                let ls2 = split_char(cs@.take(i + 1), '/');
                assert(ls2.drop_last() =~= ls.drop_last());
            }
            cur.push(c);
        }
        i += 1;
    }
    assert(cs@.take(cs@.len() as int) =~= cs@);
    proof {
        lemma_split_char_nonempty(cs@, '/');
        let ls = split_char(cs@, '/');
        assert(ls.drop_last().push(ls.last()) =~= ls);
    }
    if cur.len() > 0 {
        let ghost before = parts@.map_values(|v: Vec<char>| v@);
        parts.push(cur);
        assert(parts@.map_values(|v: Vec<char>| v@) =~= before.push(split_char(cs@, '/').last()));
    }
    parts
}

/// The section name of one endpoint (see `section_name`).
pub fn section_name_of(e: &ApiEndpoint) -> (name: String)
    ensures
        name@ == section_name(e@),
{
    if e.tags.len() > 0 {
        return string_of(e.tags[0].as_str());
    }
    let parts = path_segments(e.path.as_str());
    if parts.len() >= 2 {
        assert(parts@.map_values(|v: Vec<char>| v@)[1] == parts@[1]@);
        string_from_chars(parts[1].as_slice())
    } else {
        string_of("Other")
    }
}

// ---------------------------------------------------------------------------
// Grouping
// ---------------------------------------------------------------------------

/// Indices below `n` whose endpoint belongs to section `name`, ascending.
pub open spec fn indices_in(eps: Seq<ApiEndpointView>, n: int, name: Seq<char>) -> Seq<int> {
    keep(Seq::new(n as nat, |i: int| i), |i: int| section_name(eps[i]) == name)
}

pub open spec fn idx_view(v: Seq<usize>) -> Seq<int> {
    v.map_values(|i: usize| i as int)
}

/// `secs` groups the first `n` endpoints: names strictly ascending, each section holding
/// exactly (and in order) the indices of its endpoints, every endpoint in some section.
pub open spec fn sections_of(eps: Seq<ApiEndpointView>, n: int, secs: Seq<Section>) -> bool {
    &&& forall|a: int, b: int|
        0 <= a < b < secs.len() ==> lex_lt(#[trigger] secs[a].name@, #[trigger] secs[b].name@)
    &&& forall|k: int|
        0 <= k < secs.len() ==> idx_view(#[trigger] secs[k].endpoint_indices@) == indices_in(
            eps,
            n,
            secs[k].name@,
        ) && secs[k].endpoint_indices@.len() > 0
    &&& forall|j: int|
        0 <= j < n ==> exists|k: int|
            0 <= k < secs.len() && #[trigger] secs[k].name@ == section_name(#[trigger] eps[j])
}

proof fn lemma_indices_step(eps: Seq<ApiEndpointView>, n: int, name: Seq<char>)
    requires
        0 <= n,
    ensures
        indices_in(eps, n + 1, name) == (if section_name(eps[n]) == name {
            indices_in(eps, n, name).push(n)
        } else {
            indices_in(eps, n, name)
        }),
{
    let s = Seq::new((n + 1) as nat, |i: int| i);
    assert(s.drop_last() =~= Seq::new(n as nat, |i: int| i));
    assert(s.last() == n);
}

/// Group endpoints into sections (see `sections_of`).
pub fn build_sections(eps: &[ApiEndpoint]) -> (secs: Vec<Section>)
    ensures
        sections_of(endpoints_view(eps@), eps@.len() as int, secs@),
{
    let ghost ev = endpoints_view(eps@);
    let mut secs: Vec<Section> = Vec::new();
    let mut i: usize = 0;
    while i < eps.len()
        invariant
            i <= eps@.len(),
            ev == endpoints_view(eps@),
            sections_of(ev, i as int, secs@),
        decreases eps@.len() - i,
    {
        let name = section_name_of(&eps[i]);
        assert(ev[i as int] == eps@[i as int]@);
        let mut pos: usize = 0;
        while pos < secs.len() && lex_le_str(secs[pos].name.as_str(), name.as_str()) && !str_eq(
            secs[pos].name.as_str(),
            name.as_str(),
        )
            invariant
                pos <= secs@.len(),
                forall|k: int| 0 <= k < pos ==> lex_lt(#[trigger] secs@[k].name@, name@),
            decreases secs@.len() - pos,
        {
            pos += 1;
        }
        let found = pos < secs.len() && str_eq(secs[pos].name.as_str(), name.as_str());
        let ghost old_secs = secs@;
        proof {
            assert forall|k: int| 0 <= k < old_secs.len() implies #[trigger] idx_view(
                old_secs[k].endpoint_indices@,
            ) == indices_in(ev, i as int, old_secs[k].name@) by {}
        }
        if found {
            let mut sec = secs.remove(pos);
            sec.endpoint_indices.push(i);
            secs.insert(pos, sec);
            proof {
                assert(secs@ =~= old_secs.update(pos as int, secs@[pos as int]));
                assert forall|k: int| 0 <= k < secs@.len() implies idx_view(
                    #[trigger] secs@[k].endpoint_indices@,
                ) == indices_in(ev, i + 1, secs@[k].name@) && secs@[k].endpoint_indices@.len()
                    > 0 by {
                    lemma_indices_step(ev, i as int, secs@[k].name@);
                    if k == pos {
                        assert(idx_view(secs@[k].endpoint_indices@) =~= idx_view(
                            old_secs[k].endpoint_indices@,
                        ).push(i as int));
                    } else {
                        assert(secs@[k] == old_secs[k]);
                        if k < pos {
                            assert(lex_lt(old_secs[k].name@, name@));
                        } else {
                            assert(lex_lt(old_secs[pos as int].name@, old_secs[k].name@));
                        }
                    }
                }
                assert forall|a: int, b: int| 0 <= a < b < secs@.len() implies lex_lt(
                    #[trigger] secs@[a].name@,
                    #[trigger] secs@[b].name@,
                ) by {
                    assert(secs@[a].name@ == old_secs[a].name@);
                    assert(secs@[b].name@ == old_secs[b].name@);
                }
                assert forall|j: int| 0 <= j < i + 1 implies exists|k: int|
                    0 <= k < secs@.len() && #[trigger] secs@[k].name@ == section_name(
                        #[trigger] ev[j],
                    ) by {
                    if j < i {
                        let k = choose|k: int|
                            0 <= k < old_secs.len() && #[trigger] old_secs[k].name@ == section_name(
                                ev[j],
                            );
                        assert(secs@[k].name@ == old_secs[k].name@);
                    } else {
                        assert(secs@[pos as int].name@ == name@);
                    }
                }
            }
        } else {
            let mut idx: Vec<usize> = Vec::new();
            idx.push(i);
            let sec = Section { name, endpoint_indices: idx };
            secs.insert(pos, sec);
            proof {
                let nm = name@;
                // The new name differs from every existing section name.
                assert forall|k: int| 0 <= k < old_secs.len() implies old_secs[k].name@ != nm by {
                    if k < pos {
                        assert(lex_lt(old_secs[k].name@, nm));
                    } else {
                        assert(pos < old_secs.len());
                        lemma_lex_total(old_secs[pos as int].name@, nm);
                        assert(lex_lt(nm, old_secs[pos as int].name@));
                        if k > pos {
                            assert(lex_lt(old_secs[pos as int].name@, old_secs[k].name@));
                            lemma_lex_trans(nm, old_secs[pos as int].name@, old_secs[k].name@);
                            if nm == old_secs[k].name@ {
                                lemma_lex_antisym(old_secs[pos as int].name@, old_secs[k].name@);
                            }
                        }
                    }
                }
                // So no earlier endpoint belongs to it.
                assert forall|j: int| 0 <= j < i implies section_name(ev[j]) != nm by {
                    let k = choose|k: int|
                        0 <= k < old_secs.len() && #[trigger] old_secs[k].name@ == section_name(
                            #[trigger] ev[j],
                        );
                }
                let ids = Seq::new(i as nat, |q: int| q);
                assert forall|q: int| 0 <= q < ids.len() implies !(|x: int| section_name(ev[x])
                    == nm)(#[trigger] ids[q]) by {
                    assert(ids[q] == q);
                }
                lemma_keep_none(ids, |x: int| section_name(ev[x]) == nm);
                lemma_indices_step(ev, i as int, nm);
                assert(idx_view(secs@[pos as int].endpoint_indices@) =~= seq![i as int]);
                assert(Seq::<int>::empty().push(i as int) =~= seq![i as int]);
                assert forall|k: int| 0 <= k < secs@.len() implies idx_view(
                    #[trigger] secs@[k].endpoint_indices@,
                ) == indices_in(ev, i + 1, secs@[k].name@) && secs@[k].endpoint_indices@.len()
                    > 0 by {
                    lemma_indices_step(ev, i as int, secs@[k].name@);
                    if k < pos {
                        assert(secs@[k] == old_secs[k]);
                    } else if k > pos {
                        assert(secs@[k] == old_secs[k - 1]);
                    }
                }
                assert forall|a: int, b: int| 0 <= a < b < secs@.len() implies lex_lt(
                    #[trigger] secs@[a].name@,
                    #[trigger] secs@[b].name@,
                ) by {
                    if a < pos && b < pos {
                        assert(secs@[a] == old_secs[a] && secs@[b] == old_secs[b]);
                    } else if a < pos && b == pos {
                        assert(secs@[a] == old_secs[a]);
                    } else if a < pos {
                        assert(secs@[a] == old_secs[a] && secs@[b] == old_secs[b - 1]);
                        assert(lex_lt(old_secs[a].name@, nm));
                        lemma_lex_total(old_secs[pos as int].name@, nm);
                        assert(lex_lt(nm, old_secs[pos as int].name@));
                        if b - 1 > pos {
                            assert(lex_lt(old_secs[pos as int].name@, old_secs[b - 1].name@));
                            lemma_lex_trans(nm, old_secs[pos as int].name@, old_secs[b - 1].name@);
                            if nm == old_secs[b - 1].name@ {
                                lemma_lex_antisym(
                                    old_secs[pos as int].name@,
                                    old_secs[b - 1].name@,
                                );
                            }
                        }
                        lemma_lex_trans(old_secs[a].name@, nm, old_secs[b - 1].name@);
                        if old_secs[a].name@ == old_secs[b - 1].name@ {
                            lemma_lex_antisym(old_secs[a].name@, nm);
                        }
                    } else if a == pos {
                        assert(secs@[b] == old_secs[b - 1]);
                        lemma_lex_total(old_secs[pos as int].name@, nm);
                        assert(lex_lt(nm, old_secs[pos as int].name@));
                        if b - 1 > pos {
                            assert(lex_lt(old_secs[pos as int].name@, old_secs[b - 1].name@));
                            lemma_lex_trans(nm, old_secs[pos as int].name@, old_secs[b - 1].name@);
                            if nm == old_secs[b - 1].name@ {
                                lemma_lex_antisym(
                                    old_secs[pos as int].name@,
                                    old_secs[b - 1].name@,
                                );
                            }
                        }
                    } else {
                        assert(secs@[a] == old_secs[a - 1] && secs@[b] == old_secs[b - 1]);
                    }
                }
                assert forall|j: int| 0 <= j < i + 1 implies exists|k: int|
                    0 <= k < secs@.len() && #[trigger] secs@[k].name@ == section_name(
                        #[trigger] ev[j],
                    ) by {
                    if j < i {
                        let k = choose|k: int|
                            0 <= k < old_secs.len() && #[trigger] old_secs[k].name@ == section_name(
                                ev[j],
                            );
                        if k < pos {
                            assert(secs@[k] == old_secs[k]);
                        } else {
                            assert(secs@[k + 1] == old_secs[k]);
                        }
                    } else {
                        assert(secs@[pos as int].name@ == nm);
                    }
                }
            }
        }
        i += 1;
    }
    secs
}

impl BrowseScreen {
    /// Open the browser on a registry: sections built, first section selected.
    pub fn new(registry: EndpointRegistry) -> (s: BrowseScreen)
        ensures
            s.registry == registry,
            sections_of(
                endpoints_view(registry.endpoints@),
                registry.endpoints@.len() as int,
                s.sections@,
            ),
            s.selected_section == 0,
            s.selected_endpoint == 0,
            s.view_mode == ViewMode::Sections,
    {
        let sections = build_sections(registry.endpoints.as_slice());
        BrowseScreen {
            registry,
            sections,
            selected_section: 0,
            selected_endpoint: 0,
            view_mode: ViewMode::Sections,
        }
    }

    /// Number of endpoints in the selected section (0 when there is none).
    pub open spec fn section_size(&self) -> nat {
        if self.selected_section < self.sections@.len() {
            self.sections@[self.selected_section as int].endpoint_indices@.len()
        } else {
            0
        }
    }

    /// Select the next section or endpoint, wrapping.
    pub fn next(&mut self)
        requires
            old(self).selected_section < usize::MAX,
            old(self).selected_endpoint < usize::MAX,
        ensures
            Self::next_post(*old(self), *final(self)),
    {
        match self.view_mode {
            ViewMode::Sections => {
                if self.sections.len() > 0 {
                    self.selected_section = (self.selected_section + 1) % self.sections.len();
                    self.selected_endpoint = 0;
                }
            },
            ViewMode::Endpoints => {
                if self.selected_section < self.sections.len() {
                    let n = self.sections[self.selected_section].endpoint_indices.len();
                    if n > 0 {
                        self.selected_endpoint = (self.selected_endpoint + 1) % n;
                    }
                }
            },
        }
    }

    /// Select the previous section or endpoint, wrapping.
    pub fn previous(&mut self)
        ensures
            Self::previous_post(*old(self), *final(self)),
    {
        match self.view_mode {
            ViewMode::Sections => {
                if self.sections.len() > 0 {
                    self.selected_section = if self.selected_section == 0 {
                        self.sections.len() - 1
                    } else {
                        self.selected_section - 1
                    };
                    self.selected_endpoint = 0;
                }
            },
            ViewMode::Endpoints => {
                if self.selected_section < self.sections.len() {
                    let n = self.sections[self.selected_section].endpoint_indices.len();
                    if n > 0 {
                        self.selected_endpoint = if self.selected_endpoint == 0 {
                            n - 1
                        } else {
                            self.selected_endpoint - 1
                        };
                    }
                }
            },
        }
    }

    /// Toggle between the sections and the endpoints pane; the endpoint selection restarts.
    pub fn switch_view(&mut self)
        ensures
            Self::switch_view_post(*old(self), *final(self)),
    {
        self.view_mode = match self.view_mode {
            ViewMode::Sections => ViewMode::Endpoints,
            ViewMode::Endpoints => ViewMode::Sections,
        };
        self.selected_endpoint = 0;
    }

    /// The selected endpoint of the selected section, if both exist.
    pub fn get_selected_endpoint(&self) -> (r: Option<&ApiEndpoint>)
        ensures
            match r {
                Some(e) => {
                    &&& self.selected_section < self.sections@.len()
                    &&& self.selected_endpoint < self.section_size()
                    &&& ({
                        let idx = self.sections@[self.selected_section as int].endpoint_indices@[self.selected_endpoint as int];
                        idx < self.registry.endpoints@.len() && *e == self.registry.endpoints@[idx as int]
                    })
                },
                None => !(self.selected_section < self.sections@.len()
                    && self.selected_endpoint < self.section_size() && self.sections@[self.selected_section as int].endpoint_indices@[self.selected_endpoint as int]
                    < self.registry.endpoints@.len()),
            },
    {
        if self.selected_section >= self.sections.len() {
            return None;
        }
        let sec = &self.sections[self.selected_section];
        if self.selected_endpoint >= sec.endpoint_indices.len() {
            return None;
        }
        let idx = sec.endpoint_indices[self.selected_endpoint];
        if idx >= self.registry.endpoints.len() {
            return None;
        }
        Some(&self.registry.endpoints[idx])
    }
}

impl BrowseScreen {
    /// What `next` leaves: `o` before, `n` after.
    pub open spec fn next_post(o: BrowseScreen, n: BrowseScreen) -> bool {
        &&& match o.view_mode {
            ViewMode::Sections => if o.sections@.len() > 0 {
                n == (BrowseScreen {
                    selected_section: ((o.selected_section + 1) % (o.sections@.len() as int)) as usize,
                    selected_endpoint: 0,
                    ..o
                })
            } else {
                n == o
            },
            ViewMode::Endpoints => if o.section_size() > 0 {
                n == (BrowseScreen {
                    selected_endpoint: ((o.selected_endpoint + 1) % (o.section_size() as int)) as usize,
                    ..o
                })
            } else {
                n == o
            },
        }
    }

    /// What `previous` leaves: `o` before, `n` after.
    pub open spec fn previous_post(o: BrowseScreen, n: BrowseScreen) -> bool {
        &&& match o.view_mode {
            ViewMode::Sections => if o.sections@.len() > 0 {
                n == (BrowseScreen {
                    selected_section: if o.selected_section == 0 {
                        (o.sections@.len() - 1) as usize
                    } else {
                        (o.selected_section - 1) as usize
                    },
                    selected_endpoint: 0,
                    ..o
                })
            } else {
                n == o
            },
            ViewMode::Endpoints => if o.section_size() > 0 {
                n == (BrowseScreen {
                    selected_endpoint: if o.selected_endpoint == 0 {
                        (o.section_size() - 1) as usize
                    } else {
                        (o.selected_endpoint - 1) as usize
                    },
                    ..o
                })
            } else {
                n == o
            },
        }
    }

    /// What `switch_view` leaves: `o` before, `n` after.
    pub open spec fn switch_view_post(o: BrowseScreen, n: BrowseScreen) -> bool {
        &&& n == (BrowseScreen {
            view_mode: match o.view_mode {
                ViewMode::Sections => ViewMode::Endpoints,
                ViewMode::Endpoints => ViewMode::Sections,
            },
            selected_endpoint: 0,
            ..o
        })
    }
}


/// Moving down and then up returns to the selected section (whose endpoint selection starts
/// over at the first) or, in a section, to the selected endpoint.
pub proof fn lemma_browse_next_then_previous(o: BrowseScreen, m: BrowseScreen, n: BrowseScreen)
    requires
        o.view_mode == ViewMode::Sections ==> o.selected_section < o.sections@.len(),
        o.view_mode == ViewMode::Endpoints ==> o.selected_endpoint < o.section_size(),
        BrowseScreen::next_post(o, m),
        BrowseScreen::previous_post(m, n),
    ensures
        n == (match o.view_mode {
            ViewMode::Sections => BrowseScreen { selected_endpoint: 0, ..o },
            ViewMode::Endpoints => o,
        }),
{
    assert(o.sections.len() == o.sections@.len());
    match o.view_mode {
        ViewMode::Sections => {
            let len = o.sections@.len() as int;
            if o.selected_section + 1 < len {
                assert((o.selected_section + 1) % len == o.selected_section + 1) by (nonlinear_arith)
                    requires
                        0 <= o.selected_section + 1 < len,
                ;
            } else {
                assert((o.selected_section + 1) % len == 0) by (nonlinear_arith)
                    requires
                        o.selected_section + 1 == len,
                        len > 0,
                ;
            }
        },
        ViewMode::Endpoints => {
            let len = o.section_size() as int;
            let e = o.sections@[o.selected_section as int].endpoint_indices;
            assert(e.len() == e@.len());
            if o.selected_endpoint + 1 < len {
                assert((o.selected_endpoint + 1) % len == o.selected_endpoint + 1) by (nonlinear_arith)
                    requires
                        0 <= o.selected_endpoint + 1 < len,
                ;
            } else {
                assert((o.selected_endpoint + 1) % len == 0) by (nonlinear_arith)
                    requires
                        o.selected_endpoint + 1 == len,
                        len > 0,
                ;
            }
        },
    }
}

proof fn lemma_keep_has<A>(s: Seq<A>, p: spec_fn(A) -> bool, i: int)
    requires
        0 <= i < s.len(),
        p(s[i]),
    ensures
        keep(s, p).contains(s[i]),
    decreases s.len(),
{
    let k = keep(s.drop_last(), p);
    if i == s.len() - 1 {
        assert(keep(s, p) == k.push(s.last()));
        assert(keep(s, p)[k.len() as int] == s[i]);
    } else {
        lemma_keep_has(s.drop_last(), p, i);
        assert(s.drop_last()[i] == s[i]);
        let w = choose|w: int| 0 <= w < k.len() && k[w] == s[i];
        if p(s.last()) {
            assert(keep(s, p)[w] == s[i]);
        }
    }
}

/// An endpoint with tags is listed under the section named by its first tag: whatever
/// grouping `sections_of` allows, some section has that name and holds the endpoint's index.
pub proof fn lemma_tagged_endpoint_in_first_tag_section(
    eps: Seq<ApiEndpointView>,
    n: int,
    secs: Seq<Section>,
    j: int,
)
    requires
        sections_of(eps, n, secs),
        0 <= j < n,
        eps[j].tags.len() > 0,
    ensures
        exists|k: int|
            0 <= k < secs.len() && #[trigger] secs[k].name@ == eps[j].tags[0] && idx_view(
                secs[k].endpoint_indices@,
            ).contains(j),
{
    let e = eps[j];
    assert(exists|k: int| 0 <= k < secs.len() && #[trigger] secs[k].name@ == section_name(e));
    let k = choose|k: int| 0 <= k < secs.len() && #[trigger] secs[k].name@ == section_name(e);
    let name = secs[k].name@;
    assert(idx_view(secs[k].endpoint_indices@) == indices_in(eps, n, name));
    let ids = Seq::new(n as nat, |i: int| i);
    lemma_keep_has(ids, |i: int| section_name(eps[i]) == name, j);
    assert(ids[j] == j);
    assert(idx_view(secs[k].endpoint_indices@).contains(j));
}

} // verus!
