//! Request editor for one endpoint: path and query parameter values and a request body, with a
//! focus that cycles through the fields.

use vstd::prelude::*;
use crate::openapi::{opt_chars, ApiEndpoint, ApiParameter, ApiParameterView};
use crate::text::{chars_of, string_of, string_pop, string_push};
use crate::types::{area_fits, Area};

verus! {

/// Which input has the focus.
#[derive(Debug, Clone, Copy, PartialEq, Eq, Structural)]
pub enum FocusedField {
    PathParams,
    QueryParams,
    Body,
}

/// Editing state for executing one endpoint.
pub struct ExecuteScreen {
    pub endpoint: ApiEndpoint,
    pub path_params: Vec<(String, String)>,
    pub path_param_input_idx: usize,
    pub query_params: Vec<(String, String)>,
    pub body_text: String,
    pub focused_field: FocusedField,
    pub param_input_idx: usize,
}

/// `(name, value)` pairs as characters.
pub open spec fn pairs_view(ps: Seq<(String, String)>) -> Seq<(Seq<char>, Seq<char>)> {
    ps.map_values(|p: (String, String)| (p.0@, p.1@))
}

/// The initial `(name, default or empty)` rows of a parameter list.
pub open spec fn initial_rows(ps: Seq<ApiParameter>) -> Seq<(Seq<char>, Seq<char>)> {
    ps.map_values(
        |p: ApiParameter|
            (
                p.name@,
                match opt_chars(p.default) {
                    Some(d) => d,
                    None => Seq::empty(),
                },
            ),
    )
}

/// Rows with a non-empty value, in order.
pub open spec fn filled(ps: Seq<(Seq<char>, Seq<char>)>) -> Seq<(Seq<char>, Seq<char>)>
    decreases ps.len(),
{
    if ps.len() == 0 {
        Seq::empty()
    } else {
        let r = filled(ps.drop_last());
        if ps.last().1.len() > 0 {
            r.push(ps.last())
        } else {
            r
        }
    }
}

fn initial_rows_exec(ps: &[ApiParameter]) -> (out: Vec<(String, String)>)
    ensures
        pairs_view(out@) == initial_rows(ps@),
{
    let mut out: Vec<(String, String)> = Vec::new();
    let mut i: usize = 0;
    while i < ps.len()
        invariant
            i <= ps@.len(),
            pairs_view(out@) == initial_rows(ps@.take(i as int)),
        decreases ps@.len() - i,
    {
        let v = match &ps[i].default {
            Some(d) => string_of(d.as_str()),
            None => String::new(),
        };
        out.push((string_of(ps[i].name.as_str()), v));
        assert(initial_rows(ps@.take(i + 1)) =~= initial_rows(ps@.take(i as int)).push(
            pairs_view(out@).last(),
        ));
        assert(pairs_view(out@) =~= initial_rows(ps@.take(i + 1)));
        i += 1;
    }
    assert(ps@.take(ps@.len() as int) =~= ps@);
    out
}

fn filled_rows(ps: &[(String, String)]) -> (out: Vec<(String, String)>)
    ensures
        pairs_view(out@) == filled(pairs_view(ps@)),
{
    let mut out: Vec<(String, String)> = Vec::new();
    let mut i: usize = 0;
    while i < ps.len()
        invariant
            i <= ps@.len(),
            pairs_view(out@) == filled(pairs_view(ps@.take(i as int))),
        decreases ps@.len() - i,
    {
        assert(pairs_view(ps@.take(i + 1)).drop_last() =~= pairs_view(ps@.take(i as int)));
        assert(pairs_view(ps@.take(i + 1)).last() == (ps@[i as int].0@, ps@[i as int].1@));
        if !ps[i].1.as_str().is_empty() {
            let ghost before = pairs_view(out@);
            out.push((string_of(ps[i].0.as_str()), string_of(ps[i].1.as_str())));
            assert(pairs_view(out@) =~= before.push((ps@[i as int].0@, ps@[i as int].1@)));
        }
        i += 1;
    }
    assert(ps@.take(ps@.len() as int) =~= ps@);
    out
}

/// Where the focus goes from a state (`next_field`).
pub open spec fn after_next_field(s: ExecuteScreen) -> ExecuteScreen {
    match s.focused_field {
        FocusedField::PathParams => if s.path_param_input_idx + 1 < s.path_params@.len() {
            ExecuteScreen { path_param_input_idx: (s.path_param_input_idx + 1) as usize, ..s }
        } else if s.query_params@.len() > 0 {
            ExecuteScreen { focused_field: FocusedField::QueryParams, param_input_idx: 0, ..s }
        } else if s.endpoint.has_body {
            ExecuteScreen { focused_field: FocusedField::Body, ..s }
        } else {
            ExecuteScreen { path_param_input_idx: 0, ..s }
        },
        FocusedField::QueryParams => if s.param_input_idx + 1 < s.query_params@.len() {
            ExecuteScreen { param_input_idx: (s.param_input_idx + 1) as usize, ..s }
        } else if s.endpoint.has_body {
            ExecuteScreen { focused_field: FocusedField::Body, ..s }
        } else if s.path_params@.len() > 0 {
            ExecuteScreen {
                focused_field: FocusedField::PathParams,
                path_param_input_idx: 0,
                ..s
            }
        } else {
            ExecuteScreen { param_input_idx: 0, ..s }
        },
        FocusedField::Body => if s.path_params@.len() > 0 {
            ExecuteScreen {
                focused_field: FocusedField::PathParams,
                path_param_input_idx: 0,
                ..s
            }
        } else {
            ExecuteScreen { focused_field: FocusedField::QueryParams, param_input_idx: 0, ..s }
        },
    }
}

/// `n - 1`, or 0 for `n == 0`.
pub open spec fn last_index(n: nat) -> usize {
    if n == 0 {
        0
    } else {
        (n - 1) as usize
    }
}

/// Where the focus goes from a state (`previous_field`).
pub open spec fn after_previous_field(s: ExecuteScreen) -> ExecuteScreen {
    match s.focused_field {
        FocusedField::PathParams => if s.path_param_input_idx > 0 {
            ExecuteScreen { path_param_input_idx: (s.path_param_input_idx - 1) as usize, ..s }
        } else if s.endpoint.has_body {
            ExecuteScreen { focused_field: FocusedField::Body, ..s }
        } else if s.query_params@.len() > 0 {
            ExecuteScreen {
                focused_field: FocusedField::QueryParams,
                param_input_idx: last_index(s.query_params@.len()),
                ..s
            }
        } else {
            ExecuteScreen { path_param_input_idx: last_index(s.path_params@.len()), ..s }
        },
        FocusedField::QueryParams => if s.param_input_idx > 0 {
            ExecuteScreen { param_input_idx: (s.param_input_idx - 1) as usize, ..s }
        } else if s.path_params@.len() > 0 {
            ExecuteScreen {
                focused_field: FocusedField::PathParams,
                path_param_input_idx: last_index(s.path_params@.len()),
                ..s
            }
        } else if s.endpoint.has_body {
            ExecuteScreen { focused_field: FocusedField::Body, ..s }
        } else {
            ExecuteScreen { param_input_idx: last_index(s.query_params@.len()), ..s }
        },
        FocusedField::Body => if s.query_params@.len() > 0 {
            ExecuteScreen {
                focused_field: FocusedField::QueryParams,
                param_input_idx: last_index(s.query_params@.len()),
                ..s
            }
        } else if s.path_params@.len() > 0 {
            ExecuteScreen {
                focused_field: FocusedField::PathParams,
                path_param_input_idx: last_index(s.path_params@.len()),
                ..s
            }
        } else {
            s
        },
    }
}

impl ExecuteScreen {
    /// Editor for `endpoint`: every parameter starts at its default (or empty); the focus starts
    /// on the path parameters when there are any.
    pub fn new(endpoint: ApiEndpoint) -> (s: ExecuteScreen)
        ensures
            s.endpoint == endpoint,
            pairs_view(s.path_params@) == initial_rows(endpoint.path_params@),
            pairs_view(s.query_params@) == initial_rows(endpoint.query_params@),
            s.body_text@.len() == 0,
            s.path_param_input_idx == 0,
            s.param_input_idx == 0,
            s.focused_field == (if endpoint.path_params@.len() > 0 {
                FocusedField::PathParams
            } else {
                FocusedField::QueryParams
            }),
    {
        let path_params = initial_rows_exec(endpoint.path_params.as_slice());
        let query_params = initial_rows_exec(endpoint.query_params.as_slice());
        assert(pairs_view(path_params@).len() == path_params@.len());
        assert(initial_rows(endpoint.path_params@).len() == endpoint.path_params@.len());
        let focused_field = if path_params.len() > 0 {
            FocusedField::PathParams
        } else {
            FocusedField::QueryParams
        };
        ExecuteScreen {
            endpoint,
            path_params,
            path_param_input_idx: 0,
            query_params,
            body_text: String::new(),
            focused_field,
            param_input_idx: 0,
        }
    }

    /// Path parameters with a value, to send.
    pub fn get_path_params(&self) -> (out: Vec<(String, String)>)
        ensures
            pairs_view(out@) == filled(pairs_view(self.path_params@)),
    {
        filled_rows(self.path_params.as_slice())
    }

    /// Query parameters with a value, to send.
    pub fn get_query_params(&self) -> (out: Vec<(String, String)>)
        ensures
            pairs_view(out@) == filled(pairs_view(self.query_params@)),
    {
        filled_rows(self.query_params.as_slice())
    }

    /// Move the focus forward: through the path parameters, then the query parameters, then
    /// the body, wrapping.
    pub fn next_field(&mut self)
        ensures
            Self::next_field_post(*old(self), *final(self)),
    {
        match self.focused_field {
            FocusedField::PathParams => {
                let np = self.path_params.len();
                if np > 0 && self.path_param_input_idx < np - 1 {
                    self.path_param_input_idx = self.path_param_input_idx + 1;
                } else if self.query_params.len() > 0 {
                    self.focused_field = FocusedField::QueryParams;
                    self.param_input_idx = 0;
                } else if self.endpoint.has_body {
                    self.focused_field = FocusedField::Body;
                } else {
                    self.path_param_input_idx = 0;
                }
            },
            FocusedField::QueryParams => {
                let nq = self.query_params.len();
                if nq > 0 && self.param_input_idx < nq - 1 {
                    self.param_input_idx = self.param_input_idx + 1;
                } else if self.endpoint.has_body {
                    self.focused_field = FocusedField::Body;
                } else if self.path_params.len() > 0 {
                    self.focused_field = FocusedField::PathParams;
                    self.path_param_input_idx = 0;
                } else {
                    self.param_input_idx = 0;
                }
            },
            FocusedField::Body => {
                if self.path_params.len() > 0 {
                    self.focused_field = FocusedField::PathParams;
                    self.path_param_input_idx = 0;
                } else {
                    self.focused_field = FocusedField::QueryParams;
                    self.param_input_idx = 0;
                }
            },
        }
    }

    /// Move the focus backward (the reverse walk of `next_field`).
    pub fn previous_field(&mut self)
        ensures
            Self::previous_field_post(*old(self), *final(self)),
    {
        let np = self.path_params.len();
        let nq = self.query_params.len();
        let last_p = if np == 0 {
            0
        } else {
            np - 1
        };
        let last_q = if nq == 0 {
            0
        } else {
            nq - 1
        };
        match self.focused_field {
            FocusedField::PathParams => {
                if self.path_param_input_idx > 0 {
                    self.path_param_input_idx = self.path_param_input_idx - 1;
                } else if self.endpoint.has_body {
                    self.focused_field = FocusedField::Body;
                } else if nq > 0 {
                    self.focused_field = FocusedField::QueryParams;
                    self.param_input_idx = last_q;
                } else {
                    self.path_param_input_idx = last_p;
                }
            },
            FocusedField::QueryParams => {
                if self.param_input_idx > 0 {
                    self.param_input_idx = self.param_input_idx - 1;
                } else if np > 0 {
                    self.focused_field = FocusedField::PathParams;
                    self.path_param_input_idx = last_p;
                } else if self.endpoint.has_body {
                    self.focused_field = FocusedField::Body;
                } else {
                    self.param_input_idx = last_q;
                }
            },
            FocusedField::Body => {
                if nq > 0 {
                    self.focused_field = FocusedField::QueryParams;
                    self.param_input_idx = last_q;
                } else if np > 0 {
                    self.focused_field = FocusedField::PathParams;
                    self.path_param_input_idx = last_p;
                }
            },
        }
    }

    /// Type `c` into the focused input: the selected parameter's value, or the body. A
    /// parameter index past the list changes nothing.
    pub fn add_char_to_focused(&mut self, c: char)
        ensures
            Self::add_char_to_focused_post(*old(self), *final(self), c),
    {
        match self.focused_field {
            FocusedField::PathParams => {
                let i = self.path_param_input_idx;
                if i < self.path_params.len() {
                    let ghost before = pairs_view(self.path_params@);
                    let mut v = string_of(self.path_params[i].1.as_str());
                    string_push(&mut v, c);
                    let n = string_of(self.path_params[i].0.as_str());
                    self.path_params.set(i, (n, v));
                    assert(pairs_view(self.path_params@) =~= before.update(
                        i as int,
                        (before[i as int].0, before[i as int].1.push(c)),
                    ));
                }
            },
            FocusedField::QueryParams => {
                let i = self.param_input_idx;
                if i < self.query_params.len() {
                    let ghost before = pairs_view(self.query_params@);
                    let mut v = string_of(self.query_params[i].1.as_str());
                    string_push(&mut v, c);
                    let n = string_of(self.query_params[i].0.as_str());
                    self.query_params.set(i, (n, v));
                    assert(pairs_view(self.query_params@) =~= before.update(
                        i as int,
                        (before[i as int].0, before[i as int].1.push(c)),
                    ));
                }
            },
            FocusedField::Body => {
                string_push(&mut self.body_text, c);
            },
        }
    }

    /// Delete the last character of the focused input (nothing when it is empty).
    pub fn delete_char_from_focused(&mut self)
        ensures
            Self::delete_char_from_focused_post(*old(self), *final(self)),
    {
        match self.focused_field {
            FocusedField::PathParams => {
                let i = self.path_param_input_idx;
                if i < self.path_params.len() && !self.path_params[i].1.as_str().is_empty() {
                    let ghost before = pairs_view(self.path_params@);
                    let mut v = string_of(self.path_params[i].1.as_str());
                    string_pop(&mut v);
                    let n = string_of(self.path_params[i].0.as_str());
                    self.path_params.set(i, (n, v));
                    assert(pairs_view(self.path_params@) =~= before.update(
                        i as int,
                        (before[i as int].0, before[i as int].1.drop_last()),
                    ));
                }
            },
            FocusedField::QueryParams => {
                let i = self.param_input_idx;
                if i < self.query_params.len() && !self.query_params[i].1.as_str().is_empty() {
                    let ghost before = pairs_view(self.query_params@);
                    let mut v = string_of(self.query_params[i].1.as_str());
                    string_pop(&mut v);
                    let n = string_of(self.query_params[i].0.as_str());
                    self.query_params.set(i, (n, v));
                    assert(pairs_view(self.query_params@) =~= before.update(
                        i as int,
                        (before[i as int].0, before[i as int].1.drop_last()),
                    ));
                }
            },
            FocusedField::Body => {
                string_pop(&mut self.body_text);
            },
        }
    }
}

impl ExecuteScreen {
    /// What `next_field` leaves: `o` before, `n` after.
    pub open spec fn next_field_post(o: ExecuteScreen, n: ExecuteScreen) -> bool {
        &&& n == after_next_field(o)
    }

    /// What `previous_field` leaves: `o` before, `n` after.
    pub open spec fn previous_field_post(o: ExecuteScreen, n: ExecuteScreen) -> bool {
        &&& n == after_previous_field(o)
    }

    /// What `add_char_to_focused` leaves: `o` before, `n` after.
    pub open spec fn add_char_to_focused_post(o: ExecuteScreen, n: ExecuteScreen, c: char) -> bool {
        &&& n.focused_field == o.focused_field
        &&& n.path_param_input_idx == o.path_param_input_idx
        &&& n.param_input_idx == o.param_input_idx
        &&& n.endpoint == o.endpoint
        &&& match o.focused_field {
            FocusedField::PathParams => {
                &&& n.query_params == o.query_params
                &&& n.body_text == o.body_text
                &&& pairs_view(n.path_params@) == if o.path_param_input_idx
                    < o.path_params@.len() {
                    pairs_view(o.path_params@).update(
                        o.path_param_input_idx as int,
                        (
                            o.path_params@[o.path_param_input_idx as int].0@,
                            o.path_params@[o.path_param_input_idx as int].1@.push(c),
                        ),
                    )
                } else {
                    pairs_view(o.path_params@)
                }
            },
            FocusedField::QueryParams => {
                &&& n.path_params == o.path_params
                &&& n.body_text == o.body_text
                &&& pairs_view(n.query_params@) == if o.param_input_idx < o.query_params@.len() {
                    pairs_view(o.query_params@).update(
                        o.param_input_idx as int,
                        (
                            o.query_params@[o.param_input_idx as int].0@,
                            o.query_params@[o.param_input_idx as int].1@.push(c),
                        ),
                    )
                } else {
                    pairs_view(o.query_params@)
                }
            },
            FocusedField::Body => {
                &&& n.path_params == o.path_params
                &&& n.query_params == o.query_params
                &&& n.body_text@ == o.body_text@.push(c)
            },
        }
    }

    /// What `delete_char_from_focused` leaves: `o` before, `n` after.
    pub open spec fn delete_char_from_focused_post(o: ExecuteScreen, n: ExecuteScreen) -> bool {
        &&& n.focused_field == o.focused_field
        &&& n.path_param_input_idx == o.path_param_input_idx
        &&& n.param_input_idx == o.param_input_idx
        &&& n.endpoint == o.endpoint
        &&& match o.focused_field {
            FocusedField::PathParams => {
                &&& n.query_params == o.query_params
                &&& n.body_text == o.body_text
                &&& pairs_view(n.path_params@) == if o.path_param_input_idx
                    < o.path_params@.len() && o.path_params@[o.path_param_input_idx as int].1@.len() > 0 {
                    pairs_view(o.path_params@).update(
                        o.path_param_input_idx as int,
                        (
                            o.path_params@[o.path_param_input_idx as int].0@,
                            o.path_params@[o.path_param_input_idx as int].1@.drop_last(),
                        ),
                    )
                } else {
                    pairs_view(o.path_params@)
                }
            },
            FocusedField::QueryParams => {
                &&& n.path_params == o.path_params
                &&& n.body_text == o.body_text
                &&& pairs_view(n.query_params@) == if o.param_input_idx < o.query_params@.len() && o.query_params@[o.param_input_idx as int].1@.len() > 0 {
                    pairs_view(o.query_params@).update(
                        o.param_input_idx as int,
                        (
                            o.query_params@[o.param_input_idx as int].0@,
                            o.query_params@[o.param_input_idx as int].1@.drop_last(),
                        ),
                    )
                } else {
                    pairs_view(o.query_params@)
                }
            },
            FocusedField::Body => {
                &&& n.path_params == o.path_params
                &&& n.query_params == o.query_params
                &&& n.body_text@ == if o.body_text@.len() > 0 {
                    o.body_text@.drop_last()
                } else {
                    o.body_text@
                }
            },
        }
    }
}

/// The panels of the middle band: path parameters (when the endpoint has any), query
/// parameters, and the body (when the endpoint takes one).
#[derive(Debug, Clone, Copy, PartialEq, Eq, Structural)]
pub struct MiddleAreas {
    pub path: Option<Area>,
    pub query: Area,
    pub body: Option<Area>,
}

/// The row the cursor is on: the input index, at most the last row.
pub open spec fn clamped_row(idx: usize, len: nat) -> usize {
    if len == 0 {
        0
    } else if idx < len {
        idx
    } else {
        (len - 1) as usize
    }
}

/// Characters in the line `"{marker} {name} ({type}) = {value}"` of a parameter; a row with
/// no parameter description shows the type `string`.
pub open spec fn param_line_len(
    row: (Seq<char>, Seq<char>),
    p: Option<ApiParameterView>,
) -> nat {
    row.0.len() + row.1.len() + (match p {
        Some(q) => q.param_type.len(),
        None => 6,
    }) + 8
}

/// The parameter description of row `i`, if there is one.
pub open spec fn param_at(params: Seq<ApiParameterView>, i: int) -> Option<ApiParameterView> {
    if 0 <= i < params.len() {
        Some(params[i])
    } else {
        None
    }
}

/// Cursor cell in a parameter panel: one row per parameter inside the border, at the end of
/// the focused row's line, kept inside the right border. None when the panel is too small,
/// the row falls below the panel, or there are no rows.
pub open spec fn param_cursor(
    a: Area,
    idx: usize,
    rows: Seq<(Seq<char>, Seq<char>)>,
    params: Seq<ApiParameterView>,
) -> Option<(u16, u16)> {
    let i = clamped_row(idx, rows.len());
    let y = a.y + 1 + (i as u16);
    if a.width < 3 || a.height < 3 {
        None
    } else if y >= a.y + a.height - 1 || i >= rows.len() {
        None
    } else {
        let max_x = a.x + a.width - 2;
        let x = a.x + 1 + (param_line_len(rows[i as int], param_at(params, i as int)) as u16);
        Some(((if x > max_x { max_x } else { x }) as u16, y as u16))
    }
}

/// The cell computations of `param_cursor` stay within `u16`.
pub open spec fn param_cursor_fits(
    a: Area,
    idx: usize,
    rows: Seq<(Seq<char>, Seq<char>)>,
    params: Seq<ApiParameterView>,
) -> bool {
    let i = clamped_row(idx, rows.len());
    (a.width >= 3 && a.height >= 3) ==> {
        &&& a.y + 1 + (i as u16) <= u16::MAX
        &&& (a.y + 1 + (i as u16) < a.y + a.height - 1 && i < rows.len()) ==> a.x + 1 + (
        param_line_len(rows[i as int], param_at(params, i as int)) as u16) <= u16::MAX
    }
}

/// Number of line breaks in `s`.
pub open spec fn newline_count(s: Seq<char>) -> nat
    decreases s.len(),
{
    if s.len() == 0 {
        0
    } else {
        newline_count(s.drop_last()) + if s.last() == '\n' {
            1nat
        } else {
            0nat
        }
    }
}

/// The text after the last line break of `s` (all of `s` when there is none).
pub open spec fn last_line(s: Seq<char>) -> Seq<char>
    decreases s.len(),
{
    if s.len() == 0 {
        s
    } else if s.last() == '\n' {
        Seq::empty()
    } else {
        last_line(s.drop_last()).push(s.last())
    }
}

/// Cursor cell in the body panel: on the last line of the text (at most the panel's last
/// inner row), after its last character, kept inside the right border.
pub open spec fn body_cursor(a: Area, text: Seq<char>) -> Option<(u16, u16)> {
    if a.width < 3 || a.height < 3 {
        None
    } else {
        let visible = if newline_count(text) < a.height - 2 {
            newline_count(text) as int
        } else {
            a.height - 3
        };
        let max_x = a.x + a.width - 2;
        let x = a.x + 1 + (last_line(text).len() as u16);
        Some(((if x > max_x { max_x } else { x }) as u16, (a.y + 1 + visible) as u16))
    }
}

/// The cell computations of `body_cursor` stay within `u16`.
pub open spec fn body_cursor_fits(a: Area, text: Seq<char>) -> bool {
    (a.width >= 3 && a.height >= 3) ==> a.x + 1 + (last_line(text).len() as u16) <= u16::MAX
}

fn param_cursor_exec(
    a: Area,
    idx: usize,
    rows: &Vec<(String, String)>,
    params: &Vec<ApiParameter>,
) -> (r: Option<(u16, u16)>)
    requires
        area_fits(a),
        param_cursor_fits(a, idx, pairs_view(rows@), params_view_of(params@)),
    ensures
        r == param_cursor(a, idx, pairs_view(rows@), params_view_of(params@)),
{
    if a.width < 3 || a.height < 3 {
        return None;
    }
    let n = rows.len();
    let i: usize = if n == 0 {
        0
    } else if idx < n {
        idx
    } else {
        n - 1
    };
    let y: u16 = a.y + 1 + (#[verifier::truncate] (i as u16));
    if y >= a.y + a.height - 1 || i >= n {
        return None;
    }
    let name_len = chars_of(rows[i].0.as_str()).len();
    let value_len = chars_of(rows[i].1.as_str()).len();
    let type_len = if i < params.len() {
        chars_of(params[i].param_type.as_str()).len()
    } else {
        6
    };
    proof {
        assert(pairs_view(rows@)[i as int] == (rows@[i as int].0@, rows@[i as int].1@));
        if i < params@.len() {
            assert(params_view_of(params@)[i as int] == params@[i as int]@);
        }
    }
    let count: u128 = name_len as u128 + value_len as u128 + type_len as u128 + 8;
    let max_x: u16 = a.x + a.width - 2;
    let x: u16 = a.x + 1 + (#[verifier::truncate] (count as u16));
    Some((if x > max_x { max_x } else { x }, y))
}

/// Parameter descriptions as views.
pub open spec fn params_view_of(ps: Seq<ApiParameter>) -> Seq<ApiParameterView> {
    ps.map_values(|p: ApiParameter| p@)
}

impl ExecuteScreen {
    /// Where the cursor goes in the path parameter panel `area`.
    pub fn cursor_in_path_params(&self, area: Area) -> (r: Option<(u16, u16)>)
        requires
            area_fits(area),
            param_cursor_fits(
                area,
                self.path_param_input_idx,
                pairs_view(self.path_params@),
                params_view_of(self.endpoint.path_params@),
            ),
        ensures
            r == param_cursor(
                area,
                self.path_param_input_idx,
                pairs_view(self.path_params@),
                params_view_of(self.endpoint.path_params@),
            ),
    {
        param_cursor_exec(area, self.path_param_input_idx, &self.path_params, &self.endpoint.path_params)
    }

    /// Where the cursor goes in the query parameter panel `area`.
    pub fn cursor_in_query_params(&self, area: Area) -> (r: Option<(u16, u16)>)
        requires
            area_fits(area),
            param_cursor_fits(
                area,
                self.param_input_idx,
                pairs_view(self.query_params@),
                params_view_of(self.endpoint.query_params@),
            ),
        ensures
            r == param_cursor(
                area,
                self.param_input_idx,
                pairs_view(self.query_params@),
                params_view_of(self.endpoint.query_params@),
            ),
    {
        param_cursor_exec(area, self.param_input_idx, &self.query_params, &self.endpoint.query_params)
    }

    /// Where the cursor goes in the body panel `area`.
    pub fn cursor_in_body(&self, area: Area) -> (r: Option<(u16, u16)>)
        requires
            area_fits(area),
            body_cursor_fits(area, self.body_text@),
        ensures
            r == body_cursor(area, self.body_text@),
    {
        if area.width < 3 || area.height < 3 {
            return None;
        }
        let cs = chars_of(self.body_text.as_str());
        let mut breaks: usize = 0;
        let mut cur: usize = 0;
        let mut i: usize = 0;
        while i < cs.len()
            invariant
                i <= cs@.len(),
                cs@ == self.body_text@,
                breaks <= i,
                cur <= i,
                breaks == newline_count(cs@.take(i as int)),
                cur == last_line(cs@.take(i as int)).len(),
            decreases cs@.len() - i,
        {
            assert(cs@.take(i + 1).drop_last() =~= cs@.take(i as int));
            if cs[i] == '\n' {
                breaks += 1;
                cur = 0;
            } else {
                cur += 1;
            }
            i += 1;
        }
        assert(cs@.take(cs@.len() as int) =~= cs@);
        let inner: usize = (area.height - 2) as usize;
        let visible: usize = if breaks < inner {
            breaks
        } else {
            inner - 1
        };
        let y: u16 = area.y + 1 + (visible as u16);
        let max_x: u16 = area.x + area.width - 2;
        let x: u16 = area.x + 1 + (#[verifier::truncate] (cur as u16));
        Some((if x > max_x { max_x } else { x }, y))
    }

    /// Where the cursor goes on the screen: in the panel of the focused input, if that panel
    /// is shown.
    pub fn cursor_position(&self, mid: MiddleAreas) -> (r: Option<(u16, u16)>)
        requires
            mid.path is Some ==> area_fits(mid.path->0) && param_cursor_fits(
                mid.path->0,
                self.path_param_input_idx,
                pairs_view(self.path_params@),
                params_view_of(self.endpoint.path_params@),
            ),
            area_fits(mid.query),
            param_cursor_fits(
                mid.query,
                self.param_input_idx,
                pairs_view(self.query_params@),
                params_view_of(self.endpoint.query_params@),
            ),
            mid.body is Some ==> area_fits(mid.body->0) && body_cursor_fits(
                mid.body->0,
                self.body_text@,
            ),
        ensures
            r == match self.focused_field {
                FocusedField::PathParams => match mid.path {
                    Some(a) => param_cursor(
                        a,
                        self.path_param_input_idx,
                        pairs_view(self.path_params@),
                        params_view_of(self.endpoint.path_params@),
                    ),
                    None => None,
                },
                FocusedField::QueryParams => param_cursor(
                    mid.query,
                    self.param_input_idx,
                    pairs_view(self.query_params@),
                    params_view_of(self.endpoint.query_params@),
                ),
                FocusedField::Body => match mid.body {
                    Some(a) => body_cursor(a, self.body_text@),
                    None => None,
                },
            },
    {
        match self.focused_field {
            FocusedField::PathParams => match mid.path {
                Some(a) => self.cursor_in_path_params(a),
                None => None,
            },
            FocusedField::QueryParams => self.cursor_in_query_params(mid.query),
            FocusedField::Body => match mid.body {
                Some(a) => self.cursor_in_body(a),
                None => None,
            },
        }
    }
}


/// The focus stands on an existing input: a path or query row within its list, or the body
/// of an endpoint that takes one.
pub open spec fn focus_in_range(s: ExecuteScreen) -> bool {
    match s.focused_field {
        FocusedField::PathParams => s.path_param_input_idx < s.path_params@.len(),
        FocusedField::QueryParams => s.param_input_idx < s.query_params@.len(),
        FocusedField::Body => s.endpoint.has_body,
    }
}

/// The focused input: the field and, for a parameter list, the row.
pub open spec fn focus_of(s: ExecuteScreen) -> (FocusedField, usize) {
    match s.focused_field {
        FocusedField::PathParams => (FocusedField::PathParams, s.path_param_input_idx),
        FocusedField::QueryParams => (FocusedField::QueryParams, s.param_input_idx),
        FocusedField::Body => (FocusedField::Body, 0),
    }
}

/// Tab and then Shift+Tab put the focus back on the input it was on, and change nothing else
/// but the remembered row of the list that lost the focus.
pub proof fn lemma_previous_field_undoes_next(s: ExecuteScreen)
    requires
        focus_in_range(s),
    ensures
        focus_of(after_previous_field(after_next_field(s))) == focus_of(s),
        after_previous_field(after_next_field(s)).path_params == s.path_params,
        after_previous_field(after_next_field(s)).query_params == s.query_params,
        after_previous_field(after_next_field(s)).body_text == s.body_text,
        after_previous_field(after_next_field(s)).endpoint == s.endpoint,
{
    assert(s.path_params.len() == s.path_params@.len());
    assert(s.query_params.len() == s.query_params@.len());
}

/// Shift+Tab and then Tab put the focus back on the input it was on (unless the body is the
/// only input), and change nothing else but the remembered row of the list that lost the
/// focus.
pub proof fn lemma_next_field_undoes_previous(s: ExecuteScreen)
    requires
        focus_in_range(s),
        s.path_params@.len() > 0 || s.query_params@.len() > 0,
    ensures
        focus_of(after_next_field(after_previous_field(s))) == focus_of(s),
        after_next_field(after_previous_field(s)).path_params == s.path_params,
        after_next_field(after_previous_field(s)).query_params == s.query_params,
        after_next_field(after_previous_field(s)).body_text == s.body_text,
        after_next_field(after_previous_field(s)).endpoint == s.endpoint,
{
    assert(s.path_params.len() == s.path_params@.len());
    assert(s.query_params.len() == s.query_params@.len());
}


/// Number of inputs Tab walks through: the path parameters, the query parameters and the body.
pub open spec fn input_count(s: ExecuteScreen) -> int {
    s.path_params@.len() + s.query_params@.len() + if s.endpoint.has_body {
        1int
    } else {
        0int
    }
}

/// Position of the focused input in Tab order.
pub open spec fn focus_pos(s: ExecuteScreen) -> int {
    match s.focused_field {
        FocusedField::PathParams => s.path_param_input_idx as int,
        FocusedField::QueryParams => s.path_params@.len() + s.param_input_idx,
        FocusedField::Body => (s.path_params@.len() + s.query_params@.len()) as int,
    }
}

/// The state after `k` presses of Tab.
pub open spec fn after_next_fields(s: ExecuteScreen, k: nat) -> ExecuteScreen
    decreases k,
{
    if k == 0 {
        s
    } else {
        after_next_field(after_next_fields(s, (k - 1) as nat))
    }
}

/// One Tab moves the focus one place on in Tab order, wrapping, and keeps it on an input.
pub proof fn lemma_next_field_step(s: ExecuteScreen)
    requires
        focus_in_range(s),
        s.path_params@.len() > 0 || s.query_params@.len() > 0,
    ensures
        focus_in_range(after_next_field(s)),
        focus_pos(after_next_field(s)) == (focus_pos(s) + 1) % input_count(s),
        after_next_field(s).path_params == s.path_params,
        after_next_field(s).query_params == s.query_params,
        after_next_field(s).endpoint == s.endpoint,
{
    assert(s.path_params.len() == s.path_params@.len());
    assert(s.query_params.len() == s.query_params@.len());
    let n = input_count(s);
    let p = focus_pos(s);
    assert(0 <= p < n);
    if p + 1 < n {
        assert((p + 1) % n == p + 1) by (nonlinear_arith)
            requires
                0 <= p + 1 < n,
        ;
    } else {
        assert((p + 1) % n == 0) by (nonlinear_arith)
            requires
                p + 1 == n,
                n > 0,
        ;
    }
}

/// Tab visits every path parameter, then every query parameter, then the body, each once,
/// and then starts over: after `k` presses the focus stands `k` places on, wrapping.
pub proof fn lemma_next_fields_walk(s: ExecuteScreen, k: nat)
    requires
        focus_in_range(s),
        s.path_params@.len() > 0 || s.query_params@.len() > 0,
    ensures
        focus_in_range(after_next_fields(s, k)),
        focus_pos(after_next_fields(s, k)) == (focus_pos(s) + k) % input_count(s),
        after_next_fields(s, k).path_params == s.path_params,
        after_next_fields(s, k).query_params == s.query_params,
        after_next_fields(s, k).endpoint == s.endpoint,
    decreases k,
{
    let n = input_count(s);
    if k == 0 {
        assert(0 <= focus_pos(s) < n);
        assert(focus_pos(s) % n == focus_pos(s)) by (nonlinear_arith)
            requires
                0 <= focus_pos(s) < n,
        ;
    } else {
        let t = after_next_fields(s, (k - 1) as nat);
        lemma_next_fields_walk(s, (k - 1) as nat);
        lemma_next_field_step(t);
        let a = focus_pos(s) + k - 1;
        assert(((a % n) + 1) % n == (a + 1) % n) by {
            vstd::arithmetic::div_mod::lemma_add_mod_noop(a, 1, n);
            vstd::arithmetic::div_mod::lemma_mod_twice(a, n);
            if n > 1 {
                vstd::arithmetic::div_mod::lemma_small_mod(1, n as nat);
            } else {
                vstd::arithmetic::div_mod::lemma_mod_pos_bound(a + 1, 1);
                vstd::arithmetic::div_mod::lemma_mod_pos_bound(a, 1);
                vstd::arithmetic::div_mod::lemma_mod_pos_bound((a % n) + 1, 1);
            }
        }
    }
}

/// From the first path parameter, the focus is back on it after `k` Tabs (`1 <= k <= n`,
/// with `n` inputs) exactly when `k == n`.
pub proof fn lemma_tab_cycle(s: ExecuteScreen, k: nat)
    requires
        s.path_params@.len() >= 1,
        s.focused_field == FocusedField::PathParams,
        s.path_param_input_idx == 0,
        1 <= k <= input_count(s),
    ensures
        focus_of(after_next_fields(s, k)) == (FocusedField::PathParams, 0usize) <==> k
            == input_count(s),
{
    let n = input_count(s);
    lemma_next_fields_walk(s, k);
    let t = after_next_fields(s, k);
    if k == n {
        vstd::arithmetic::div_mod::lemma_mod_self_0(n);
    } else {
        vstd::arithmetic::div_mod::lemma_small_mod(k, n as nat);
    }
}

} // verus!
