//! The orders in which saved connections are listed: the recent list, and the
//! connection list of the sidebar.

use vstd::prelude::*;

use crate::session::{ConnectionType, SavedConnection};
use crate::text::{lemma_text_le_total, lemma_text_le_trans, opt_chars, str_eq, text_le, text_le_exec};

verus! {

/// `a` comes strictly before `b` in the order of `str::cmp`.
pub open spec fn text_lt(a: Seq<char>, b: Seq<char>) -> bool {
    text_le(a, b) && a != b
}

pub proof fn lemma_text_lt_trans(a: Seq<char>, b: Seq<char>, c: Seq<char>)
    requires
        text_lt(a, b),
        text_lt(b, c),
    ensures
        text_lt(a, c),
{
    lemma_text_le_trans(a, b, c);
    if a == c {
        lemma_text_le_total(a, b);
    }
}

pub proof fn lemma_text_lt_total(a: Seq<char>, b: Seq<char>)
    ensures
        a != b ==> text_lt(a, b) || text_lt(b, a),
        !(text_lt(a, b) && text_lt(b, a)),
{
    lemma_text_le_total(a, b);
}

/// `a` comes strictly before `b` where a missing text comes before any text
/// (`Option<String>`'s order).
pub open spec fn opt_text_lt(a: Option<Seq<char>>, b: Option<Seq<char>>) -> bool {
    match (a, b) {
        (None, Some(_)) => true,
        (Some(x), Some(y)) => text_lt(x, y),
        _ => false,
    }
}

pub proof fn lemma_opt_text_lt(a: Option<Seq<char>>, b: Option<Seq<char>>, c: Option<Seq<char>>)
    ensures
        !opt_text_lt(a, a),
        a != b ==> opt_text_lt(a, b) || opt_text_lt(b, a),
        opt_text_lt(a, b) && opt_text_lt(b, c) ==> opt_text_lt(a, c),
{
    match (a, b) {
        (Some(x), Some(y)) => {
            lemma_text_lt_total(x, y);
        },
        _ => {},
    }
    match (a, b, c) {
        (Some(x), Some(y), Some(z)) => {
            if text_lt(x, y) && text_lt(y, z) {
                lemma_text_lt_trans(x, y, z);
            }
        },
        _ => {},
    }
}

/// The two orders connections are listed in.
#[derive(Clone, Copy, PartialEq, Eq, Debug, Structural)]
pub enum ConnOrder {
    /// Most recently connected first (no time counts as the empty text), then by name.
    Recent,
    /// Favorites first, then most recently connected (no time last), then by name.
    Listing,
}

/// The last connection time of a connection, a missing one as the empty text.
pub open spec fn last_or_empty(c: SavedConnection) -> Seq<char> {
    match c.last_connected {
        Some(t) => t@,
        None => seq![],
    }
}

/// `a` sorts strictly before `b` by the key of `order`.
pub open spec fn key_lt(order: ConnOrder, a: SavedConnection, b: SavedConnection) -> bool {
    match order {
        ConnOrder::Recent => text_lt(last_or_empty(b), last_or_empty(a)) || (last_or_empty(a)
            == last_or_empty(b) && text_lt(a.name@, b.name@)),
        ConnOrder::Listing => {
            let la = opt_chars(a.last_connected);
            let lb = opt_chars(b.last_connected);
            ||| a.favorite && !b.favorite
            ||| a.favorite == b.favorite && opt_text_lt(lb, la)
            ||| a.favorite == b.favorite && la == lb && text_lt(a.name@, b.name@)
        },
    }
}

/// `a` and `b` have the same key in `order`.
pub open spec fn key_eq(order: ConnOrder, a: SavedConnection, b: SavedConnection) -> bool {
    match order {
        ConnOrder::Recent => last_or_empty(a) == last_or_empty(b) && a.name@ == b.name@,
        ConnOrder::Listing => a.favorite == b.favorite && opt_chars(a.last_connected) == opt_chars(
            b.last_connected,
        ) && a.name@ == b.name@,
    }
}

pub proof fn lemma_key_order(order: ConnOrder, a: SavedConnection, b: SavedConnection, c: SavedConnection)
    ensures
        !key_lt(order, a, a),
        key_lt(order, a, b) || key_lt(order, b, a) || key_eq(order, a, b),
        !(key_lt(order, a, b) && key_eq(order, a, b)),
        !(key_lt(order, a, b) && key_lt(order, b, a)),
        key_lt(order, a, b) && key_lt(order, b, c) ==> key_lt(order, a, c),
        key_lt(order, a, b) && key_eq(order, b, c) ==> key_lt(order, a, c),
        key_eq(order, a, b) && key_lt(order, b, c) ==> key_lt(order, a, c),
        key_eq(order, a, b) && key_eq(order, b, c) ==> key_eq(order, a, c),
        key_eq(order, a, b) ==> key_eq(order, b, a),
{
    lemma_text_lt_total(a.name@, b.name@);
    lemma_text_lt_total(b.name@, c.name@);
    lemma_text_lt_total(a.name@, c.name@);
    if text_lt(a.name@, b.name@) && text_lt(b.name@, c.name@) {
        lemma_text_lt_trans(a.name@, b.name@, c.name@);
    }
    match order {
        ConnOrder::Recent => {
            let la = last_or_empty(a);
            let lb = last_or_empty(b);
            let lc = last_or_empty(c);
            lemma_text_lt_total(la, lb);
            lemma_text_lt_total(lb, lc);
            lemma_text_lt_total(la, lc);
            if text_lt(lc, lb) && text_lt(lb, la) {
                lemma_text_lt_trans(lc, lb, la);
            }
        },
        ConnOrder::Listing => {
            let la = opt_chars(a.last_connected);
            let lb = opt_chars(b.last_connected);
            let lc = opt_chars(c.last_connected);
            lemma_opt_text_lt(la, lb, lc);
            lemma_opt_text_lt(lc, lb, la);
            lemma_opt_text_lt(lb, lc, la);
            lemma_opt_text_lt(lb, la, lc);
            lemma_opt_text_lt(lc, la, lb);
            lemma_opt_text_lt(la, lc, lb);
            lemma_opt_text_lt(la, lb, la);
            lemma_opt_text_lt(lb, la, lb);
        },
    }
}

/// Row `i` of `conns` is listed before row `j`: by the key of `order`, and rows with
/// the same key keep their order (a stable sort).
pub open spec fn conn_before(order: ConnOrder, conns: Seq<SavedConnection>, i: usize, j: usize) -> bool {
    key_lt(order, conns[i as int], conns[j as int]) || (key_eq(
        order,
        conns[i as int],
        conns[j as int],
    ) && i < j)
}

pub proof fn lemma_before_order(order: ConnOrder, conns: Seq<SavedConnection>, i: usize, j: usize, k: usize)
    ensures
        !conn_before(order, conns, i, i),
        i != j ==> conn_before(order, conns, i, j) || conn_before(order, conns, j, i),
        conn_before(order, conns, i, j) && conn_before(order, conns, j, k) ==> conn_before(
            order,
            conns,
            i,
            k,
        ),
{
    lemma_key_order(order, conns[i as int], conns[j as int], conns[k as int]);
    lemma_key_order(order, conns[j as int], conns[i as int], conns[k as int]);
}

/// Whether the row `c` is listed under the type filter `filter`.
pub open spec fn passes(filter: Option<ConnectionType>, c: SavedConnection) -> bool {
    match filter {
        Some(t) => c.conn_type == t,
        None => true,
    }
}

/// `rows` are row indices of `conns`, each once, in the order `order`.
pub open spec fn sorted_rows(order: ConnOrder, conns: Seq<SavedConnection>, rows: Seq<usize>) -> bool {
    &&& rows.no_duplicates()
    &&& forall|k: int| 0 <= k < rows.len() ==> #[trigger] rows[k] < conns.len()
    &&& forall|a: int, b: int|
        0 <= a < b < rows.len() ==> conn_before(order, conns, #[trigger] rows[a], #[trigger] rows[b])
}

/// In the order of the sidebar listing: a favorite never comes after a connection
/// that is not one; of two equally favorite connections, one never connected comes
/// after any that was, and of two that were, the later connection time (in `str`
/// order) comes first; and of two equally favorite connections with the same last
/// connection time (or none), the one whose name is smaller in `str` order comes
/// first.
pub proof fn law_listing_order(conns: Seq<SavedConnection>, rows: Seq<usize>, a: int, b: int)
    requires
        sorted_rows(ConnOrder::Listing, conns, rows),
        0 <= a < b < rows.len(),
    ensures
        ({
            let x = conns[rows[a] as int];
            let y = conns[rows[b] as int];
            &&& !(y.favorite && !x.favorite)
            &&& x.favorite == y.favorite ==> match (x.last_connected, y.last_connected) {
                (None, Some(_)) => false,
                (Some(tx), Some(ty)) => !text_lt(tx@, ty@),
                _ => true,
            }
            &&& x.favorite == y.favorite && opt_chars(x.last_connected) == opt_chars(y.last_connected)
                ==> !text_lt(y.name@, x.name@)
        }),
{
    let x = conns[rows[a] as int];
    let y = conns[rows[b] as int];
    assert(conn_before(ConnOrder::Listing, conns, rows[a], rows[b]));
    lemma_text_lt_total(x.name@, y.name@);
    match (x.last_connected, y.last_connected) {
        (Some(tx), Some(ty)) => {
            lemma_text_lt_total(tx@, ty@);
        },
        _ => {},
    }
}

/// In the order of the recent list: the later last connection time (in `str` order, a
/// missing time counting as the empty text) comes first, and of two connections with
/// the same time, the one whose name is smaller in `str` order comes first.
pub proof fn law_recent_order(conns: Seq<SavedConnection>, rows: Seq<usize>, a: int, b: int)
    requires
        sorted_rows(ConnOrder::Recent, conns, rows),
        0 <= a < b < rows.len(),
    ensures
        ({
            let x = conns[rows[a] as int];
            let y = conns[rows[b] as int];
            let tx = match x.last_connected {
                Some(t) => t@,
                None => Seq::<char>::empty(),
            };
            let ty = match y.last_connected {
                Some(t) => t@,
                None => Seq::<char>::empty(),
            };
            &&& !text_lt(tx, ty)
            &&& tx == ty ==> !text_lt(y.name@, x.name@)
        }),
{
    let x = conns[rows[a] as int];
    let y = conns[rows[b] as int];
    assert(conn_before(ConnOrder::Recent, conns, rows[a], rows[b]));
    lemma_text_lt_total(x.name@, y.name@);
    lemma_text_lt_total(last_or_empty(x), last_or_empty(y));
}

/// Compares texts for equality.
fn same_text(a: &str, b: &str) -> (r: bool)
    ensures
        r == (a@ == b@),
{
    str_eq(a, b)
}

/// `a` before `b` in the order of `str::cmp`.
fn text_lt_exec(a: &str, b: &str) -> (r: bool)
    ensures
        r == text_lt(a@, b@),
{
    text_le_exec(a, b) && !str_eq(a, b)
}

/// The last connection time, a missing one as the empty text.
fn last_text(c: &SavedConnection) -> (r: &str)
    ensures
        r@ == last_or_empty(*c),
{
    match &c.last_connected {
        Some(t) => t.as_str(),
        None => {
            proof {
                reveal_strlit("");
            }
            ""
        },
    }
}

/// Compares optional texts, a missing one first.
fn opt_text_lt_exec(a: &Option<String>, b: &Option<String>) -> (r: bool)
    ensures
        r == opt_text_lt(opt_chars(*a), opt_chars(*b)),
{
    match (a, b) {
        (None, Some(_)) => true,
        (Some(x), Some(y)) => text_lt_exec(x.as_str(), y.as_str()),
        _ => false,
    }
}

/// Whether two optional texts hold the same characters.
fn opt_same_text(a: &Option<String>, b: &Option<String>) -> (r: bool)
    ensures
        r == (opt_chars(*a) == opt_chars(*b)),
{
    match (a, b) {
        (None, None) => true,
        (Some(x), Some(y)) => same_text(x.as_str(), y.as_str()),
        _ => false,
    }
}

/// Row `i` is listed before row `j`.
fn before_exec(order: ConnOrder, conns: &[SavedConnection], i: usize, j: usize) -> (r: bool)
    requires
        i < conns@.len(),
        j < conns@.len(),
    ensures
        r == conn_before(order, conns@, i, j),
{
    let a = &conns[i];
    let b = &conns[j];
    let same_name = same_text(a.name.as_str(), b.name.as_str());
    let name_lt = text_lt_exec(a.name.as_str(), b.name.as_str());
    let (lt, eq) = match order {
        ConnOrder::Recent => {
            let (la, lb) = (last_text(a), last_text(b));
            let same_last = same_text(la, lb);
            (text_lt_exec(lb, la) || (same_last && name_lt), same_last && same_name)
        },
        ConnOrder::Listing => {
            let same_fav = a.favorite == b.favorite;
            let same_last = opt_same_text(&a.last_connected, &b.last_connected);
            (
                (a.favorite && !b.favorite) || (same_fav && opt_text_lt_exec(
                    &b.last_connected,
                    &a.last_connected,
                )) || (same_fav && same_last && name_lt),
                same_fav && same_last && same_name,
            )
        },
    };
    lt || (eq && i < j)
}

/// Sorts the rows of `conns` that pass `filter` in the order `order`.
pub fn sort_rows(order: ConnOrder, conns: &[SavedConnection], filter: Option<ConnectionType>) -> (r: Vec<
    usize,
>)
    ensures
        sorted_rows(order, conns@, r@),
        forall|i: usize| #[trigger] r@.contains(i) <==> (i < conns@.len() && passes(filter, conns@[i as int])),
        filter is None ==> r@.len() == conns@.len(),
{
    let mut r: Vec<usize> = Vec::new();
    let mut i: usize = 0;
    while i < conns.len()
        invariant
            i <= conns@.len(),
            sorted_rows(order, conns@, r@),
            forall|x: usize| #[trigger] r@.contains(x) <==> (x < i && passes(filter, conns@[x as int])),
            filter is None ==> r@.len() == i,
        decreases conns@.len() - i,
    {
        let keep = match filter {
            Some(t) => conns[i].conn_type == t,
            None => true,
        };
        if keep {
            let mut p: usize = 0;
            while p < r.len() && !before_exec(order, conns, i, r[p])
                invariant
                    i < conns@.len(),
                    p <= r@.len(),
                    sorted_rows(order, conns@, r@),
                    forall|x: usize| #[trigger] r@.contains(x) ==> x < i,
                    forall|q: int| 0 <= q < p ==> conn_before(order, conns@, #[trigger] r@[q], i),
                decreases r@.len() - p,
            {
                proof {
                    assert(r@.contains(r@[p as int]));
                    lemma_before_order(order, conns@, i, r@[p as int], i);
                }
                p = p + 1;
            }
            let ghost old_r = r@;
            r.insert(p, i);
            proof {
                assert(r@ == old_r.insert(p as int, i));
                assert(!old_r.contains(i));
                if p < old_r.len() {
                    assert(conn_before(order, conns@, i, old_r[p as int]));
                }
                assert forall|a: int, b: int| 0 <= a < b < r@.len() implies conn_before(
                    order,
                    conns@,
                    #[trigger] r@[a],
                    #[trigger] r@[b],
                ) by {
                    if b < p {
                        assert(r@[a] == old_r[a] && r@[b] == old_r[b]);
                    } else if b == p {
                        assert(r@[a] == old_r[a]);
                    } else if a == p {
                        assert(r@[b] == old_r[b - 1]);
                        if b - 1 > p {
                            lemma_before_order(order, conns@, i, old_r[p as int], old_r[b - 1]);
                        }
                    } else if a < p {
                        assert(r@[a] == old_r[a] && r@[b] == old_r[b - 1]);
                    } else {
                        assert(r@[a] == old_r[a - 1] && r@[b] == old_r[b - 1]);
                    }
                }
                assert forall|x: int, y: int| 0 <= x < y < r@.len() implies r@[x] != r@[y] by {
                    if r@[x] == r@[y] {
                        lemma_before_order(order, conns@, r@[x], r@[y], r@[x]);
                    }
                }
                assert forall|k: int| 0 <= k < r@.len() implies #[trigger] r@[k] < conns@.len() by {
                    if k < p {
                        assert(old_r.contains(old_r[k]));
                    } else if k > p {
                        assert(old_r.contains(old_r[k - 1]));
                    }
                }
                assert forall|x: usize| #[trigger] r@.contains(x) <==> (x < i + 1 && passes(
                    filter,
                    conns@[x as int],
                )) by {
                    if r@.contains(x) {
                        let k = choose|k: int| 0 <= k < r@.len() && r@[k] == x;
                        if k < p {
                            assert(old_r.contains(old_r[k]));
                        } else if k > p {
                            assert(old_r.contains(old_r[k - 1]));
                        }
                    }
                    if x < i && passes(filter, conns@[x as int]) {
                        assert(old_r.contains(x));
                        let k = choose|k: int| 0 <= k < old_r.len() && old_r[k] == x;
                        if k < p {
                            assert(r@[k] == x);
                        } else {
                            assert(r@[k + 1] == x);
                        }
                    }
                    if x == i {
                        assert(r@[p as int] == i);
                    }
                }
            }
        } else {
            proof {
                assert forall|x: usize| #[trigger] r@.contains(x) <==> (x < i + 1 && passes(
                    filter,
                    conns@[x as int],
                )) by {
                    if x == i {
                        assert(!passes(filter, conns@[x as int]));
                    }
                }
            }
        }
        i = i + 1;
    }
    r
}

} // verus!
