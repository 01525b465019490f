//! Grouping of ROM files into games: one row per game name, base file first,
//! updates and DLC after it.

use vstd::prelude::*;
use crate::text::{
    lemma_lex_antisym, lemma_lex_total, lemma_lex_trans, lex_le, lex_le_str, lex_lt,
    seq_contains, spec_to_lowercase, str_contains, str_eq, to_lowercase,
};
use crate::types::Rom;

verus! {

/// One game entry for list display: all files with the same `name` shown once.
#[derive(Debug, Clone)]
pub struct RomGroup {
    pub name: String,
    pub primary: Rom,
    pub others: Vec<Rom>,
}

// ---------------------------------------------------------------------------
// Specification
// ---------------------------------------------------------------------------

/// The elements of `s` satisfying `p`, in order.
pub open spec fn keep<A>(s: Seq<A>, p: spec_fn(A) -> bool) -> Seq<A>
    decreases s.len(),
{
    if s.len() == 0 {
        seq![]
    } else {
        let k = keep(s.drop_last(), p);
        if p(s.last()) {
            k.push(s.last())
        } else {
            k
        }
    }
}

/// ROMs whose game name is `n`.
pub open spec fn has_name(n: Seq<char>) -> spec_fn(Rom) -> bool {
    |r: Rom| r.name@ == n
}

/// A file is an update or DLC when its lowercase file name mentions `[update]` or `[dlc]`.
pub open spec fn is_extra(r: Rom) -> bool {
    seq_contains(spec_to_lowercase(r.fs_name@), "[update]"@) || seq_contains(
        spec_to_lowercase(r.fs_name@),
        "[dlc]"@,
    )
}

/// ROMs whose update/DLC status is `b`.
pub open spec fn extra_is(b: bool) -> spec_fn(Rom) -> bool {
    |r: Rom| is_extra(r) == b
}

/// The files of the game called `n`, in input order, base files before updates/DLC.
pub open spec fn game_files(items: Seq<Rom>, n: Seq<char>) -> Seq<Rom> {
    let g = keep(items, has_name(n));
    keep(g, extra_is(false)) + keep(g, extra_is(true))
}

/// All files of a group, primary first.
pub open spec fn group_files(g: RomGroup) -> Seq<Rom> {
    seq![g.primary] + g.others@
}

/// `groups` is the grouping of `items`: one group per distinct game name, in strictly
/// ascending name order, each holding exactly that game's files.
pub open spec fn groups_of(items: Seq<Rom>, groups: Seq<RomGroup>) -> bool {
    &&& forall|i: int, j: int|
        0 <= i < j < groups.len() ==> lex_lt(groups[i].name@, groups[j].name@)
    &&& forall|i: int|
        0 <= i < groups.len() ==> group_files(#[trigger] groups[i]) == game_files(
            items,
            groups[i].name@,
        )
    &&& forall|k: int|
        #![trigger items[k]]
        0 <= k < items.len() ==> exists|i: int|
            0 <= i < groups.len() && #[trigger] groups[i].name@ == items[k].name@
}

// ---------------------------------------------------------------------------
// Lemmas about `keep`
// ---------------------------------------------------------------------------

pub proof fn lemma_keep_add<A>(a: Seq<A>, b: Seq<A>, p: spec_fn(A) -> bool)
    ensures
        keep(a + b, p) == keep(a, p) + keep(b, p),
    decreases b.len(),
{
    if b.len() == 0 {
        assert(a + b =~= a);
        assert(keep(a, p) + keep(b, p) =~= keep(a, p));
    } else {
        assert((a + b).drop_last() =~= a + b.drop_last());
        lemma_keep_add(a, b.drop_last(), p);
        assert((a + b).last() == b.last());
        if p(b.last()) {
            assert(keep(a, p) + keep(b.drop_last(), p).push(b.last()) =~= (keep(a, p) + keep(
                b.drop_last(),
                p,
            )).push(b.last()));
        }
    }
}

pub proof fn lemma_keep_single<A>(x: A, p: spec_fn(A) -> bool)
    ensures
        keep(seq![x], p) == (if p(x) {
            seq![x]
        } else {
            seq![]
        }),
{
    assert(seq![x].drop_last() =~= Seq::<A>::empty());
    assert(keep(Seq::<A>::empty(), p) =~= Seq::<A>::empty());
    assert(seq![x].last() == x);
    if p(x) {
        assert(Seq::<A>::empty().push(x) =~= seq![x]);
    }
}

pub proof fn lemma_keep_cons<A>(x: A, s: Seq<A>, p: spec_fn(A) -> bool)
    ensures
        keep(seq![x] + s, p) == (if p(x) {
            seq![x] + keep(s, p)
        } else {
            keep(s, p)
        }),
{
    lemma_keep_add(seq![x], s, p);
    lemma_keep_single(x, p);
    if !p(x) {
        assert(Seq::<A>::empty() + keep(s, p) =~= keep(s, p));
    }
}

pub proof fn lemma_keep_none<A>(s: Seq<A>, p: spec_fn(A) -> bool)
    requires
        forall|i: int| 0 <= i < s.len() ==> !p(#[trigger] s[i]),
    ensures
        keep(s, p) == Seq::<A>::empty(),
    decreases s.len(),
{
    if s.len() > 0 {
        lemma_keep_none(s.drop_last(), p);
        assert(!p(s[s.len() - 1]));
    }
}

pub proof fn lemma_keep_all<A>(s: Seq<A>, p: spec_fn(A) -> bool)
    requires
        forall|i: int| 0 <= i < s.len() ==> p(#[trigger] s[i]),
    ensures
        keep(s, p) == s,
    decreases s.len(),
{
    if s.len() > 0 {
        lemma_keep_all(s.drop_last(), p);
        assert(p(s[s.len() - 1]));
        assert(s.drop_last().push(s.last()) =~= s);
    } else {
        assert(s =~= Seq::<A>::empty());
    }
}

/// Everything kept satisfies the predicate.
pub proof fn lemma_keep_sat<A>(s: Seq<A>, p: spec_fn(A) -> bool)
    ensures
        forall|i: int| 0 <= i < keep(s, p).len() ==> p(#[trigger] keep(s, p)[i]),
        keep(s, p).len() <= s.len(),
    decreases s.len(),
{
    if s.len() > 0 {
        lemma_keep_sat(s.drop_last(), p);
    }
}

/// An element satisfying the predicate makes the kept sequence non-empty.
pub proof fn lemma_keep_nonempty<A>(s: Seq<A>, p: spec_fn(A) -> bool, k: int)
    requires
        0 <= k < s.len(),
        p(s[k]),
    ensures
        keep(s, p).len() > 0,
    decreases s.len(),
{
    if k < s.len() - 1 {
        lemma_keep_nonempty(s.drop_last(), p, k);
    }
}

/// A non-empty kept sequence has a witness in the source.
pub proof fn lemma_keep_witness<A>(s: Seq<A>, p: spec_fn(A) -> bool)
    requires
        keep(s, p).len() > 0,
    ensures
        exists|k: int| 0 <= k < s.len() && p(#[trigger] s[k]),
    decreases s.len(),
{
    if s.len() > 0 {
        if p(s.last()) {
            assert(p(s[s.len() - 1]));
        } else {
            lemma_keep_witness(s.drop_last(), p);
            let k = choose|k: int| 0 <= k < s.drop_last().len() && p(#[trigger] s.drop_last()[k]);
            assert(p(s[k]));
        }
    }
}

// ---------------------------------------------------------------------------
// Stable merge sort by name
// ---------------------------------------------------------------------------

pub open spec fn name_le(a: Rom, b: Rom) -> bool {
    lex_le(a.name@, b.name@)
}

pub open spec fn sorted_by_name(s: Seq<Rom>) -> bool {
    forall|i: int, j: int| 0 <= i < j < s.len() ==> name_le(s[i], s[j])
}

pub open spec fn merge_names(a: Seq<Rom>, b: Seq<Rom>) -> Seq<Rom>
    decreases a.len() + b.len(),
{
    if a.len() == 0 {
        b
    } else if b.len() == 0 {
        a
    } else if name_le(a[0], b[0]) {
        seq![a[0]] + merge_names(a.drop_first(), b)
    } else {
        seq![b[0]] + merge_names(a, b.drop_first())
    }
}

pub open spec fn sort_by_name(s: Seq<Rom>) -> Seq<Rom>
    decreases s.len(),
{
    if s.len() <= 1 {
        s
    } else {
        merge_names(sort_by_name(s.take((s.len() / 2) as int)), sort_by_name(s.skip((s.len() / 2) as int)))
    }
}

proof fn lemma_merge_bound(a: Seq<Rom>, b: Seq<Rom>, x: Seq<char>)
    requires
        forall|i: int| 0 <= i < a.len() ==> lex_le(x, #[trigger] a[i].name@),
        forall|i: int| 0 <= i < b.len() ==> lex_le(x, #[trigger] b[i].name@),
    ensures
        forall|i: int| 0 <= i < merge_names(a, b).len() ==> lex_le(x, #[trigger] merge_names(a, b)[i].name@),
        merge_names(a, b).len() == a.len() + b.len(),
    decreases a.len() + b.len(),
{
    if a.len() > 0 && b.len() > 0 {
        if name_le(a[0], b[0]) {
            lemma_merge_bound(a.drop_first(), b, x);
            assert(lex_le(x, a[0].name@));
        } else {
            lemma_merge_bound(a, b.drop_first(), x);
            assert(lex_le(x, b[0].name@));
        }
    }
}

proof fn lemma_sorted_cons(x: Rom, s: Seq<Rom>)
    requires
        sorted_by_name(s),
        forall|i: int| 0 <= i < s.len() ==> lex_le(x.name@, #[trigger] s[i].name@),
    ensures
        sorted_by_name(seq![x] + s),
{
    let t = seq![x] + s;
    assert forall|i: int, j: int| 0 <= i < j < t.len() implies name_le(t[i], t[j]) by {
        if i == 0 {
            assert(t[j] == s[j - 1]);
        } else {
            assert(t[i] == s[i - 1]);
            assert(t[j] == s[j - 1]);
        }
    }
}

proof fn lemma_merge_sorted(a: Seq<Rom>, b: Seq<Rom>)
    requires
        sorted_by_name(a),
        sorted_by_name(b),
    ensures
        sorted_by_name(merge_names(a, b)),
    decreases a.len() + b.len(),
{
    if a.len() > 0 && b.len() > 0 {
        if name_le(a[0], b[0]) {
            let a1 = a.drop_first();
            assert(sorted_by_name(a1)) by {
                assert forall|i: int, j: int| 0 <= i < j < a1.len() implies name_le(a1[i], a1[j]) by {
                    assert(a1[i] == a[i + 1]);
                    assert(a1[j] == a[j + 1]);
                }
            }
            lemma_merge_sorted(a1, b);
            assert forall|i: int| 0 <= i < b.len() implies lex_le(a[0].name@, #[trigger] b[i].name@) by {
                if i > 0 {
                    assert(name_le(b[0], b[i]));
                    lemma_lex_trans(a[0].name@, b[0].name@, b[i].name@);
                }
            }
            assert forall|i: int| 0 <= i < a1.len() implies lex_le(a[0].name@, #[trigger] a1[i].name@) by {
                assert(a1[i] == a[i + 1]);
                assert(name_le(a[0], a[i + 1]));
            }
            lemma_merge_bound(a1, b, a[0].name@);
            lemma_sorted_cons(a[0], merge_names(a1, b));
        } else {
            let b1 = b.drop_first();
            lemma_lex_total(a[0].name@, b[0].name@);
            assert(sorted_by_name(b1)) by {
                assert forall|i: int, j: int| 0 <= i < j < b1.len() implies name_le(b1[i], b1[j]) by {
                    assert(b1[i] == b[i + 1]);
                    assert(b1[j] == b[j + 1]);
                }
            }
            lemma_merge_sorted(a, b1);
            assert forall|i: int| 0 <= i < a.len() implies lex_le(b[0].name@, #[trigger] a[i].name@) by {
                if i > 0 {
                    assert(name_le(a[0], a[i]));
                    lemma_lex_trans(b[0].name@, a[0].name@, a[i].name@);
                }
            }
            assert forall|i: int| 0 <= i < b1.len() implies lex_le(b[0].name@, #[trigger] b1[i].name@) by {
                assert(b1[i] == b[i + 1]);
                assert(name_le(b[0], b[i + 1]));
            }
            lemma_merge_bound(a, b1, b[0].name@);
            lemma_sorted_cons(b[0], merge_names(a, b1));
        }
    }
}

/// Merging keeps, for each name, the files of `a` before those of `b` (stability).
proof fn lemma_merge_keep_name(a: Seq<Rom>, b: Seq<Rom>, n: Seq<char>)
    requires
        sorted_by_name(a),
        sorted_by_name(b),
    ensures
        keep(merge_names(a, b), has_name(n)) == keep(a, has_name(n)) + keep(b, has_name(n)),
    decreases a.len() + b.len(),
{
    let p = has_name(n);
    if a.len() == 0 {
        assert(a =~= Seq::<Rom>::empty());
        assert(keep(a, p) =~= Seq::<Rom>::empty());
        assert(keep(a, p) + keep(b, p) =~= keep(b, p));
    } else if b.len() == 0 {
        assert(keep(b, p) =~= Seq::<Rom>::empty());
        assert(keep(a, p) + keep(b, p) =~= keep(a, p));
    } else {
        if name_le(a[0], b[0]) {
            let a1 = a.drop_first();
            assert(sorted_by_name(a1)) by {
                assert forall|i: int, j: int| 0 <= i < j < a1.len() implies name_le(a1[i], a1[j]) by {
                    assert(a1[i] == a[i + 1]);
                    assert(a1[j] == a[j + 1]);
                }
            }
            lemma_merge_keep_name(a1, b, n);
            lemma_keep_cons(a[0], merge_names(a1, b), p);
            lemma_keep_cons(a[0], a1, p);
            assert(a =~= seq![a[0]] + a1);
            if p(a[0]) {
                assert(seq![a[0]] + (keep(a1, p) + keep(b, p)) =~= (seq![a[0]] + keep(a1, p))
                    + keep(b, p));
            }
        } else {
            let b1 = b.drop_first();
            assert(sorted_by_name(b1)) by {
                assert forall|i: int, j: int| 0 <= i < j < b1.len() implies name_le(b1[i], b1[j]) by {
                    assert(b1[i] == b[i + 1]);
                    assert(b1[j] == b[j + 1]);
                }
            }
            lemma_merge_keep_name(a, b1, n);
            lemma_keep_cons(b[0], merge_names(a, b1), p);
            lemma_keep_cons(b[0], b1, p);
            assert(b =~= seq![b[0]] + b1);
            if p(b[0]) {
                assert forall|i: int| 0 <= i < a.len() implies !p(#[trigger] a[i]) by {
                    if p(a[i]) {
                        if i > 0 {
                            assert(name_le(a[0], a[i]));
                        } else {
                            lemma_lex_refl_local(a[0].name@);
                        }
                    }
                }
                lemma_keep_none(a, p);
                assert(seq![b[0]] + (keep(a, p) + keep(b1, p)) =~= keep(a, p) + (seq![b[0]]
                    + keep(b1, p)));
            }
        }
    }
}

proof fn lemma_lex_refl_local(a: Seq<char>)
    ensures
        lex_le(a, a),
{
    crate::text::lemma_lex_refl(a);
}

proof fn lemma_sort_props(s: Seq<Rom>)
    ensures
        sorted_by_name(sort_by_name(s)),
        forall|n: Seq<char>| #[trigger] keep(sort_by_name(s), has_name(n)) == keep(s, has_name(n)),
        sort_by_name(s).len() == s.len(),
    decreases s.len(),
{
    if s.len() > 1 {
        let l = s.take((s.len() / 2) as int);
        let r = s.skip((s.len() / 2) as int);
        lemma_sort_props(l);
        lemma_sort_props(r);
        lemma_merge_sorted(sort_by_name(l), sort_by_name(r));
        assert forall|i: int| 0 <= i < sort_by_name(l).len() implies lex_le(Seq::<char>::empty(), #[trigger] sort_by_name(l)[i].name@) by {}
        assert forall|i: int| 0 <= i < sort_by_name(r).len() implies lex_le(Seq::<char>::empty(), #[trigger] sort_by_name(r)[i].name@) by {}
        lemma_merge_bound(sort_by_name(l), sort_by_name(r), Seq::<char>::empty());
        assert forall|n: Seq<char>| #[trigger] keep(sort_by_name(s), has_name(n)) == keep(s, has_name(n)) by {
            lemma_merge_keep_name(sort_by_name(l), sort_by_name(r), n);
            assert(s =~= l + r);
            lemma_keep_add(l, r, has_name(n));
        }
    } else {
        assert forall|i: int, j: int| 0 <= i < j < s.len() implies name_le(s[i], s[j]) by {}
    }
}

fn merge_by_name(a: Vec<Rom>, b: Vec<Rom>) -> (out: Vec<Rom>)
    ensures
        out@ == merge_names(a@, b@),
{
    let mut out: Vec<Rom> = Vec::new();
    let mut i: usize = 0;
    let mut j: usize = 0;
    assert(a@.skip(0) =~= a@);
    assert(b@.skip(0) =~= b@);
    while i < a.len() || j < b.len()
        invariant
            i <= a@.len(),
            j <= b@.len(),
            out@ + merge_names(a@.skip(i as int), b@.skip(j as int)) == merge_names(a@, b@),
        decreases a@.len() - i + b@.len() - j,
    {
        let ghost sa = a@.skip(i as int);
        let ghost sb = b@.skip(j as int);
        let take_a = if i == a.len() {
            false
        } else if j == b.len() {
            true
        } else {
            lex_le_str(a[i].name.as_str(), b[j].name.as_str())
        };
        if take_a {
            let x = a[i].duplicate();
            proof {
                assert(sa.drop_first() =~= a@.skip(i + 1));
                if sb.len() == 0 {
                    assert(merge_names(sa, sb) == sa);
                    assert(merge_names(sa.drop_first(), sb) == sa.drop_first());
                    assert(sa =~= seq![sa[0]] + sa.drop_first());
                }
                assert(out@.push(x) + merge_names(sa.drop_first(), sb) =~= out@ + (seq![x]
                    + merge_names(sa.drop_first(), sb)));
            }
            out.push(x);
            i += 1;
        } else {
            let x = b[j].duplicate();
            proof {
                assert(sb.drop_first() =~= b@.skip(j + 1));
                if sa.len() == 0 {
                    assert(merge_names(sa, sb) == sb);
                    assert(merge_names(sa, sb.drop_first()) == sb.drop_first());
                    assert(sb =~= seq![sb[0]] + sb.drop_first());
                }
                assert(out@.push(x) + merge_names(sa, sb.drop_first()) =~= out@ + (seq![x]
                    + merge_names(sa, sb.drop_first())));
            }
            out.push(x);
            j += 1;
        }
    }
    assert(merge_names(a@.skip(i as int), b@.skip(j as int)) =~= Seq::<Rom>::empty());
    assert(out@ + Seq::<Rom>::empty() =~= out@);
    out
}

fn sort_roms_by_name(v: Vec<Rom>) -> (out: Vec<Rom>)
    ensures
        out@ == sort_by_name(v@),
    decreases v@.len(),
{
    if v.len() <= 1 {
        return v;
    }
    let m = v.len() / 2;
    let mut left = v;
    let ghost whole = left@;
    let right = left.split_off(m);
    assert(left@ =~= whole.take((whole.len() / 2) as int));
    assert(right@ =~= whole.skip((whole.len() / 2) as int));
    let l = sort_roms_by_name(left);
    let r = sort_roms_by_name(right);
    merge_by_name(l, r)
}

// ---------------------------------------------------------------------------
// Grouping
// ---------------------------------------------------------------------------

/// Whether a ROM file is an update or DLC (`[update]` / `[dlc]` in its lowercase file name).
pub fn rom_is_extra(r: &Rom) -> (b: bool)
    ensures
        b == is_extra(*r),
{
    let lower = to_lowercase(r.fs_name.as_str());
    str_contains(lower.as_str(), "[update]") || str_contains(lower.as_str(), "[dlc]")
}

/// Group ROMs by game name; each group's primary is its first base file (files without
/// `[update]`/`[dlc]` in their name come first, each kind in input order). Groups are
/// ordered by name.
pub fn group_roms_by_name(items: &[Rom]) -> (groups: Vec<RomGroup>)
    ensures
        groups_of(items@, groups@),
{
    let mut copy: Vec<Rom> = Vec::new();
    let mut c: usize = 0;
    while c < items.len()
        invariant
            c <= items@.len(),
            copy@ == items@.take(c as int),
        decreases items@.len() - c,
    {
        copy.push(items[c].duplicate());
        assert(items@.take(c as int).push(items@[c as int]) =~= items@.take(c + 1));
        c += 1;
    }
    assert(items@.take(items@.len() as int) =~= items@);
    let s = sort_roms_by_name(copy);
    proof {
        lemma_sort_props(items@);
    }
    let n = s.len();
    let mut groups: Vec<RomGroup> = Vec::new();
    let mut p: usize = 0;
    while p < n
        invariant
            n == s@.len(),
            n == items@.len(),
            s@ == sort_by_name(items@),
            sorted_by_name(s@),
            forall|m: Seq<char>| #[trigger] keep(s@, has_name(m)) == keep(items@, has_name(m)),
            p <= n,
            forall|i: int, j: int|
                0 <= i < j < groups@.len() ==> lex_lt(groups@[i].name@, groups@[j].name@),
            forall|i: int|
                0 <= i < groups@.len() ==> group_files(#[trigger] groups@[i]) == game_files(
                    items@,
                    groups@[i].name@,
                ),
            forall|q: int|
                #![trigger s@[q]]
                0 <= q < p ==> exists|i: int|
                    0 <= i < groups@.len() && #[trigger] groups@[i].name@ == s@[q].name@,
            p > 0 ==> groups@.len() > 0 && groups@.last().name@ == s@[p - 1].name@,
            p == 0 ==> groups@.len() == 0,
            0 < p < n ==> s@[p - 1].name@ != s@[p as int].name@,
        decreases n - p,
    {
        let name = s[p].name.clone();
        let ghost nm = name@;
        let mut e: usize = p + 1;
        while e < n && str_eq(s[e].name.as_str(), name.as_str())
            invariant
                n == s@.len(),
                p < e <= n,
                nm == s@[p as int].name@,
                name@ == nm,
                forall|q: int| p <= q < e ==> #[trigger] s@[q].name@ == nm,
            decreases n - e,
        {
            e += 1;
        }
        // The run s[p..e) holds exactly the files named `nm`.
        proof {
            lemma_run_is_game(s@, p as int, e as int);
        }
        let mut bases: Vec<Rom> = Vec::new();
        let mut extras: Vec<Rom> = Vec::new();
        let mut k: usize = p;
        while k < e
            invariant
                n == s@.len(),
                p <= k <= e <= n,
                bases@ == keep(s@.subrange(p as int, k as int), extra_is(false)),
                extras@ == keep(s@.subrange(p as int, k as int), extra_is(true)),
            decreases e - k,
        {
            let r = s[k].duplicate();
            let x = rom_is_extra(&r);
            proof {
                assert(s@.subrange(p as int, k + 1).drop_last() =~= s@.subrange(p as int, k as int));
                assert(s@.subrange(p as int, k + 1).last() == r);
            }
            if x {
                extras.push(r);
            } else {
                bases.push(r);
            }
            k += 1;
        }
        let ghost files = bases@ + extras@;
        assert(files == game_files(items@, nm));
        proof {
            lemma_keep_nonempty(s@, has_name(nm), p as int);
            assert(keep(s@, has_name(nm)).len() == e - p);
            let run = s@.subrange(p as int, e as int);
            lemma_keep_sat(run, extra_is(false));
            lemma_keep_sat(run, extra_is(true));
            lemma_keep_count(run);
        }
        let mut all = bases;
        all.append(&mut extras);
        let primary = all.remove(0);
        let group = RomGroup { name, primary, others: all };
        assert(group_files(group) =~= files);
        proof {
            if groups@.len() > 0 {
                assert(name_le(s@[p - 1], s@[p as int]));
                lemma_new_name_is_greatest(groups@, nm);
            }
        }
        let ghost old_groups = groups@;
        groups.push(group);
        proof {
            assert forall|q: int| #![trigger s@[q]] 0 <= q < e implies exists|i: int|
                0 <= i < groups@.len() && #[trigger] groups@[i].name@ == s@[q].name@ by {
                if q >= p {
                    assert(groups@[groups@.len() - 1].name@ == s@[q].name@);
                } else {
                    let i = choose|i: int|
                        0 <= i < old_groups.len() && #[trigger] old_groups[i].name@ == s@[q].name@;
                    assert(groups@[i] == old_groups[i]);
                }
            }
            if e < n {
                assert(s@[e - 1].name@ == nm);
            }
        }
        p = e;
    }
    proof {
        assert forall|k: int| #![trigger items@[k]] 0 <= k < items@.len() implies exists|i: int|
            0 <= i < groups@.len() && #[trigger] groups@[i].name@ == items@[k].name@ by {
            let m = items@[k].name@;
            lemma_keep_nonempty(items@, has_name(m), k);
            assert(keep(s@, has_name(m)).len() > 0);
            lemma_keep_witness(s@, has_name(m));
            let q = choose|q: int| 0 <= q < s@.len() && has_name(m)(#[trigger] s@[q]);
            assert(s@[q].name@ == m);
        }
    }
    groups
}


/// In a name-sorted sequence, a maximal run of one name holds exactly the files of that name.
proof fn lemma_run_is_game(s: Seq<Rom>, p: int, e: int)
    requires
        sorted_by_name(s),
        0 <= p < e <= s.len(),
        forall|q: int| p <= q < e ==> #[trigger] s[q].name@ == s[p].name@,
        p > 0 ==> s[p - 1].name@ != s[p].name@,
        e < s.len() ==> s[e].name@ != s[p].name@,
    ensures
        keep(s, has_name(s[p].name@)) == s.subrange(p, e),
{
    let nm = s[p].name@;
    let run = s.subrange(p, e);
    let pre = s.take(p);
    let post = s.skip(e);
    assert(s =~= pre + run + post);
    assert forall|q: int| 0 <= q < pre.len() implies !has_name(nm)(#[trigger] pre[q]) by {
        assert(pre[q] == s[q]);
        if s[q].name@ == nm {
            if q < p - 1 {
                assert(name_le(s[q], s[p - 1]));
                assert(name_le(s[p - 1], s[p]));
                lemma_lex_antisym(s[p - 1].name@, s[p].name@);
            }
        }
    }
    assert forall|q: int| 0 <= q < post.len() implies !has_name(nm)(#[trigger] post[q]) by {
        assert(post[q] == s[e + q]);
        if s[e + q].name@ == nm {
            assert(name_le(s[p], s[e]));
            if q > 0 {
                assert(name_le(s[e], s[e + q]));
            } else {
                lemma_lex_refl_local(s[e].name@);
            }
            lemma_lex_antisym(s[p].name@, s[e].name@);
        }
    }
    assert forall|q: int| 0 <= q < run.len() implies has_name(nm)(#[trigger] run[q]) by {
        assert(run[q] == s[p + q]);
    }
    lemma_keep_none(pre, has_name(nm));
    lemma_keep_none(post, has_name(nm));
    lemma_keep_all(run, has_name(nm));
    lemma_keep_add(pre + run, post, has_name(nm));
    lemma_keep_add(pre, run, has_name(nm));
    assert(keep(s, has_name(nm)) =~= run);
}

/// A name above the last of an ascending list is above all of them.
proof fn lemma_new_name_is_greatest(groups: Seq<RomGroup>, nm: Seq<char>)
    requires
        groups.len() > 0,
        forall|i: int, j: int|
            0 <= i < j < groups.len() ==> lex_lt(groups[i].name@, groups[j].name@),
        lex_le(groups.last().name@, nm),
        groups.last().name@ != nm,
    ensures
        forall|i: int| 0 <= i < groups.len() ==> lex_lt(#[trigger] groups[i].name@, nm),
{
    let last = groups.last().name@;
    assert forall|i: int| 0 <= i < groups.len() implies lex_lt(#[trigger] groups[i].name@, nm) by {
        if i < groups.len() - 1 {
            assert(lex_lt(groups[i].name@, groups[groups.len() - 1].name@));
            lemma_lex_trans(groups[i].name@, last, nm);
            if groups[i].name@ == nm {
                lemma_lex_antisym(last, nm);
            }
        }
    }
}

/// The two classes of a run together have as many elements as the run.
proof fn lemma_keep_count(s: Seq<Rom>)
    ensures
        keep(s, extra_is(false)).len() + keep(s, extra_is(true)).len() == s.len(),
    decreases s.len(),
{
    if s.len() > 0 {
        lemma_keep_count(s.drop_last());
    }
}

} // verus!
